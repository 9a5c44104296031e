# Renarrator

Type a word, and Windows plays a sound. Renarrator lives in the tray, listens to the
keyboard, and plays one of the sounds of a rule when one of its words has been typed:
for the user, into the microphone stream of a call, or both.

`src/` is the library that decides, written in Verus: every function states what it
returns, and the statements are proved. They rest on what ten small wrappers say of
functions outside the library, which is believed and not proved: the random numbers
of `rand` (in `weighted`), the paths of `std::path` (in `paths`), and the archives of
`zip` (in `virtual_mic_setup`). Each wrapper says in its comment what it claims.

| module | what it decides |
| --- | --- |
| `weighted` | which sound of a rule is chosen |
| `audio_engine` | what is played, stopped and opened for a command |
| `mic_buffer` | what passes from the microphone to the mixer |
| `devices` | what devices are called, and which goes by a name |
| `trigger_engine` | which command follows a match, and what a saved configuration changes |
| `config`, `volume` | what a configuration holds |
| `validation` | which configurations are accepted, and what is warned about |
| `storage`, `paths` | where a configuration is kept, and how it is loaded and saved |
| `hand_edits` | what is saved over a configuration file that was edited by hand |
| `virtual_mic_setup`, `wide` | what is unpacked of the cable's driver pack, and whether it was installed |
| `desktop` | what clicks and window events do, and where the menu goes |
| `text` | small operations on text |

Proof functions whose names begin with `law_` state what holds of the library as a
whole.

`app/` is the application around it: threads, devices, files and windows. `tests/`
runs the library on concrete values.
