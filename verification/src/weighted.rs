//! Weighted random choice of a sound.
use crate::config::{sound_views, SoundOption, SoundView};
use crate::draws::one_draw;
use rand::rngs::{SmallRng, ThreadRng};
use rand::Rng;
use vstd::prelude::*;
use vstd::set_lib::{lemma_int_range, set_int_range};

verus! {

/// The generator with a small state; only carried through.
#[verifier::external_type_specification]
#[verifier::external_body]
pub struct ExSmallRng(SmallRng);

/// The generator of the running thread; only carried through.
#[verifier::external_type_specification]
#[verifier::external_body]
pub struct ExThreadRng(ThreadRng);

/// Calls `rand::Rng::random_range` with the range `0..total`: the result lies in
/// that range, which must not be empty. Which number comes is left to chance. That it
/// came from this call, with this bound, is what [`one_draw`] says.
#[verifier::external_body]
fn small_rng_below(rng: &mut SmallRng, total: u64) -> (roll: u64)
    requires
        total > 0,
    ensures
        roll < total,
        one_draw(*old(rng), total, roll, *final(rng)),
{
    rng.random_range(0..total)
}

/// Calls `rand::Rng::random_range` with the range `0..total`: the result lies in
/// that range, which must not be empty. Which number comes is left to chance. That it
/// came from this call, with this bound, is what [`one_draw`] says.
#[verifier::external_body]
fn thread_rng_below(rng: &mut ThreadRng, total: u64) -> (roll: u64)
    requires
        total > 0,
    ensures
        roll < total,
        one_draw(*old(rng), total, roll, *final(rng)),
{
    rng.random_range(0..total)
}

/// A source of random numbers below a bound.
pub trait RollSource {
    /// Whether one draw of a number below `total` may give `roll` and leave the source
    /// as `after`.
    spec fn rolled(&self, total: u64, roll: u64, after: &Self) -> bool;

    /// Some number below `total`: one draw from the source.
    fn roll_below(&mut self, total: u64) -> (roll: u64)
        requires
            total > 0,
        ensures
            roll < total,
            old(self).rolled(total, roll, &*final(self)),
    ;
}

impl RollSource for SmallRng {
    /// The roll is what one call of the generator gave for the bound.
    open spec fn rolled(&self, total: u64, roll: u64, after: &Self) -> bool {
        one_draw(*self, total, roll, *after)
    }

    fn roll_below(&mut self, total: u64) -> (roll: u64) {
        small_rng_below(self, total)
    }
}

impl RollSource for ThreadRng {
    /// The roll is what one call of the generator gave for the bound.
    open spec fn rolled(&self, total: u64, roll: u64, after: &Self) -> bool {
        one_draw(*self, total, roll, *after)
    }

    fn roll_below(&mut self, total: u64) -> (roll: u64) {
        thread_rng_below(self, total)
    }
}

/// The sum of the weights of the first `n` sounds.
pub open spec fn weight_before(sounds: Seq<SoundView>, n: int) -> int
    decreases n,
{
    if n <= 0 {
        0
    } else {
        weight_before(sounds, n - 1) + sounds[n - 1].weight
    }
}

/// The sum of all weights.
pub open spec fn total_weight(sounds: Seq<SoundView>) -> int {
    weight_before(sounds, sounds.len() as int)
}

/// Whether a roll chooses the sound at `i`. The sounds share out the numbers from
/// zero up to the total weight in order, each as many as its weight. Without any
/// weight the first sound is chosen; past the total, the last.
pub open spec fn chosen_by(sounds: Seq<SoundView>, roll: int, i: int) -> bool {
    &&& 0 <= i < sounds.len()
    &&& if total_weight(sounds) == 0 {
        i == 0
    } else if roll >= total_weight(sounds) {
        i == sounds.len() - 1
    } else {
        weight_before(sounds, i) <= roll < weight_before(sounds, i + 1)
    }
}

/// Whether chance may choose the sound at `i`.
pub open spec fn may_be_chosen(sounds: Seq<SoundView>, i: int) -> bool {
    &&& 0 <= i < sounds.len()
    &&& if total_weight(sounds) == 0 {
        i == 0
    } else {
        sounds[i].weight > 0
    }
}

/// Whether the choice of the sound at `i` may take the source from `before` to `after`.
/// Where the sounds have any weight, exactly one number below the total is drawn, and
/// it chooses the sound; otherwise none is drawn, and the source stays as it is.
pub open spec fn drawn<R: RollSource + ?Sized>(
    before: &R,
    after: &R,
    sounds: Seq<SoundView>,
    i: int,
) -> bool {
    &&& may_be_chosen(sounds, i)
    &&& if total_weight(sounds) == 0 {
        after == before
    } else {
        exists|roll: u64| #[trigger]
            before.rolled(total_weight(sounds) as u64, roll, after) && roll < total_weight(sounds)
                && chosen_by(
                sounds,
                roll as int,
                i,
            )
    }
}

proof fn lemma_weight_monotone(sounds: Seq<SoundView>, i: int, j: int)
    requires
        i <= j,
    ensures
        weight_before(sounds, i) <= weight_before(sounds, j),
        0 <= weight_before(sounds, j),
    decreases j,
{
    if j > 0 {
        if i < j {
            lemma_weight_monotone(sounds, i, j - 1);
        } else {
            lemma_weight_monotone(sounds, i - 1, j - 1);
        }
    }
}

/// Adds up the weights.
fn sum_weights(sounds: &[SoundOption]) -> (total: u64)
    requires
        total_weight(sound_views(sounds@)) <= u64::MAX,
    ensures
        total == total_weight(sound_views(sounds@)),
{
    let ghost views: Seq<SoundView> = sound_views(sounds@);
    let mut total: u64 = 0;
    let mut i: usize = 0;
    while i < sounds.len()
        invariant
            views == sound_views(sounds@),
            total_weight(views) <= u64::MAX,
            i <= sounds.len(),
            total == weight_before(views, i as int),
        decreases sounds.len() - i,
    {
        proof {
            lemma_weight_monotone(views, i + 1, views.len() as int);
        }
        total += sounds[i].weight as u64;
        i += 1;
    }
    total
}

/// The sound that a roll chooses.
pub fn pick_by_roll<'a>(sounds: &'a [SoundOption], roll: u64) -> (picked: Option<&'a SoundOption>)
    requires
        total_weight(sound_views(sounds@)) <= u64::MAX,
    ensures
        picked is None <==> sounds@.len() == 0,
        picked matches Some(sound) ==> exists|i: int|
            #[trigger] chosen_by(sound_views(sounds@), roll as int, i) && *sound == sounds@[i],
{
    if sounds.len() == 0 {
        return None;
    }
    let ghost views: Seq<SoundView> = sound_views(sounds@);
    let total: u64 = sum_weights(sounds);
    if total == 0 {
        assert(chosen_by(views, roll as int, 0));
        return Some(&sounds[0]);
    }
    let mut rest: u64 = roll;
    let mut i: usize = 0;
    while i < sounds.len()
        invariant
            views == sound_views(sounds@),
            total == total_weight(views),
            total > 0,
            i <= sounds.len(),
            rest == roll - weight_before(views, i as int),
        decreases sounds.len() - i,
    {
        let w: u64 = sounds[i].weight as u64;
        if rest < w {
            proof {
                lemma_weight_monotone(views, i + 1, views.len() as int);
                assert(chosen_by(views, roll as int, i as int));
            }
            return Some(&sounds[i]);
        }
        rest -= w;
        i += 1;
    }
    assert(chosen_by(views, roll as int, sounds@.len() - 1));
    Some(&sounds[sounds.len() - 1])
}

/// Chooses one sound at random by weight. From an empty list there is nothing to
/// choose; where all weights are zero the first sound is taken. In neither case is a
/// number drawn; in every other, exactly one is.
pub fn pick_weighted<'a, R: RollSource + ?Sized>(
    sounds: &'a [SoundOption],
    rng: &mut R,
) -> (picked: Option<&'a SoundOption>)
    requires
        total_weight(sound_views(sounds@)) <= u64::MAX,
    ensures
        picked is None <==> sounds@.len() == 0,
        picked matches Some(sound) ==> exists|i: int|
            #[trigger] drawn(&*old(rng), &*final(rng), sound_views(sounds@), i) && *sound
                == sounds@[i],
        picked is None ==> &*final(rng) == &*old(rng),
{
    if sounds.is_empty() {
        return None;
    }
    let ghost views: Seq<SoundView> = sound_views(sounds@);
    let total: u64 = sum_weights(sounds);
    let roll: u64 = if total == 0 {
        0
    } else {
        rng.roll_below(total)
    };
    let picked: Option<&'a SoundOption> = pick_by_roll(sounds, roll);
    proof {
        let i = choose|i: int|
            #[trigger] chosen_by(views, roll as int, i) && *picked.unwrap() == sounds@[i];
        assert(may_be_chosen(views, i));
        if total > 0 {
            assert(old(rng).rolled(total_weight(views) as u64, roll, &*rng));
        }
        assert(drawn(&*old(rng), &*rng, views, i));
    }
    picked
}

proof fn lemma_roll_has_choice(sounds: Seq<SoundView>, roll: int, n: int) -> (i: int)
    requires
        0 <= n <= sounds.len(),
        0 <= roll < weight_before(sounds, n),
    ensures
        0 <= i < n,
        weight_before(sounds, i) <= roll < weight_before(sounds, i + 1),
    decreases n,
{
    if weight_before(sounds, n - 1) <= roll {
        n - 1
    } else {
        lemma_roll_has_choice(sounds, roll, n - 1)
    }
}

/// Every roll chooses exactly one sound of a list that has any.
pub proof fn law_roll_chooses_one(sounds: Seq<SoundView>, roll: int)
    requires
        sounds.len() > 0,
        roll >= 0,
    ensures
        exists|i: int| chosen_by(sounds, roll, i),
        forall|i: int, j: int|
            #[trigger] chosen_by(sounds, roll, i) && #[trigger] chosen_by(sounds, roll, j) ==> i
                == j,
{
    lemma_weight_monotone(sounds, 0, sounds.len() as int);
    if total_weight(sounds) == 0 {
        assert(chosen_by(sounds, roll, 0));
    } else if roll >= total_weight(sounds) {
        assert(chosen_by(sounds, roll, sounds.len() - 1));
    } else {
        let i = lemma_roll_has_choice(sounds, roll, sounds.len() as int);
        assert(chosen_by(sounds, roll, i));
        assert forall|i: int, j: int|
            #[trigger] chosen_by(sounds, roll, i) && #[trigger] chosen_by(
                sounds,
                roll,
                j,
            ) implies i == j by {
            if i < j {
                lemma_weight_monotone(sounds, i + 1, j);
            } else if j < i {
                lemma_weight_monotone(sounds, j + 1, i);
            }
        }
    }
}

/// The probability law: of the rolls from zero up to the total weight, exactly as
/// many choose a sound as its weight says. With even rolls, a sound is chosen with
/// the probability of its weight over the sum of the weights.
pub proof fn law_share_is_weight(sounds: Seq<SoundView>, i: int)
    requires
        0 <= i < sounds.len(),
        total_weight(sounds) > 0,
    ensures
        Set::new(
            |roll: int| 0 <= roll < total_weight(sounds) && chosen_by(sounds, roll, i),
        ).finite(),
        Set::new(
            |roll: int| 0 <= roll < total_weight(sounds) && chosen_by(sounds, roll, i),
        ).len() == sounds[i].weight,
{
    let low = weight_before(sounds, i);
    let high = weight_before(sounds, i + 1);
    lemma_weight_monotone(sounds, 0, i);
    lemma_weight_monotone(sounds, i + 1, sounds.len() as int);
    lemma_int_range(low, high);
    assert(Set::new(|roll: int| 0 <= roll < total_weight(sounds) && chosen_by(sounds, roll, i))
        =~= set_int_range(low, high));
}

/// Chance reaches exactly the sounds with a weight, or the first one where no
/// sound has any: a sound without weight is never chosen beside one with weight.
pub proof fn law_choice_reaches_weighted_sounds(sounds: Seq<SoundView>, i: int)
    ensures
        may_be_chosen(sounds, i) <==> exists|roll: int|
            0 <= roll && (roll < total_weight(sounds) || total_weight(sounds) == 0)
                && #[trigger] chosen_by(sounds, roll, i),
{
    if may_be_chosen(sounds, i) {
        lemma_weight_monotone(sounds, 0, i);
        lemma_weight_monotone(sounds, i + 1, sounds.len() as int);
        assert(chosen_by(sounds, weight_before(sounds, i), i));
    }
}

/// The sum of the weights of a list of sounds.
pub open spec fn sum_of_weights(sounds: Seq<SoundOption>) -> int {
    sounds.fold_left(0int, |sum: int, sound: SoundOption| sum + sound.weight)
}

/// Whether no sound of a list has any weight.
pub open spec fn weightless(sounds: Seq<SoundOption>) -> bool {
    forall|i: int| 0 <= i < sounds.len() ==> (#[trigger] sounds[i]).weight == 0
}

/// Whether a roll falls into the share of the sound at `i`: the weights before it add
/// up to no more than the roll, and with its own to more.
pub open spec fn falls_to(sounds: Seq<SoundOption>, roll: int, i: int) -> bool {
    &&& 0 <= i < sounds.len()
    &&& sum_of_weights(sounds.take(i)) <= roll < sum_of_weights(sounds.take(i)) + sounds[i].weight
}

pub(crate) proof fn lemma_sum_of_weights(sounds: Seq<SoundOption>, n: int)
    requires
        0 <= n <= sounds.len(),
    ensures
        sum_of_weights(sounds.take(n)) == weight_before(sound_views(sounds), n),
    decreases n,
{
    if n > 0 {
        lemma_sum_of_weights(sounds, n - 1);
        assert(sounds.take(n).drop_last() =~= sounds.take(n - 1));
    }
}

pub(crate) proof fn lemma_weightless(sounds: Seq<SoundOption>)
    ensures
        total_weight(sound_views(sounds)) == 0 <==> weightless(sounds),
        total_weight(sound_views(sounds)) >= 0,
        total_weight(sound_views(sounds)) == sum_of_weights(sounds),
{
    let views = sound_views(sounds);
    lemma_weight_monotone(views, 0, views.len() as int);
    lemma_sum_of_weights(sounds, sounds.len() as int);
    assert(sounds.take(sounds.len() as int) =~= sounds);
    if total_weight(views) == 0 {
        assert forall|i: int| 0 <= i < sounds.len() implies (#[trigger] sounds[i]).weight == 0 by {
            lemma_weight_monotone(views, 0, i);
            lemma_weight_monotone(views, i + 1, views.len() as int);
            assert(views[i].weight == sounds[i].weight);
        }
    } else if weightless(sounds) {
        lemma_weightless_before(sounds, sounds.len() as int);
    }
}

proof fn lemma_weightless_before(sounds: Seq<SoundOption>, n: int)
    requires
        weightless(sounds),
        0 <= n <= sounds.len(),
    ensures
        weight_before(sound_views(sounds), n) == 0,
    decreases n,
{
    if n > 0 {
        lemma_weightless_before(sounds, n - 1);
        assert(sounds[n - 1].weight == 0);
    }
}

/// The total is the sum of the weights: a further sound adds its own.
pub proof fn law_total_is_the_sum(sounds: Seq<SoundView>, sound: SoundView)
    ensures
        total_weight(Seq::<SoundView>::empty()) == 0,
        total_weight(sounds.push(sound)) == total_weight(sounds) + sound.weight,
{
    lemma_weight_of_prefix(sounds, sound, sounds.len() as int);
}

proof fn lemma_weight_of_prefix(sounds: Seq<SoundView>, sound: SoundView, n: int)
    requires
        0 <= n <= sounds.len(),
    ensures
        weight_before(sounds.push(sound), n) == weight_before(sounds, n),
    decreases n,
{
    if n > 0 {
        lemma_weight_of_prefix(sounds, sound, n - 1);
    }
}

/// A roll of a generator is one draw of it, for the very bound that was asked for.
pub proof fn law_rolls_are_draws(
    small: SmallRng,
    small_after: SmallRng,
    thread: ThreadRng,
    thread_after: ThreadRng,
    total: u64,
    roll: u64,
)
    ensures
        small.rolled(total, roll, &small_after) ==> one_draw(small, total, roll, small_after),
        thread.rolled(total, roll, &thread_after) ==> one_draw(thread, total, roll, thread_after),
{
}

/// What a generator gives for a bound is one draw of it for that bound, and lies below
/// it.
pub proof fn law_generators_draw(
    small: &mut SmallRng,
    thread: &mut ThreadRng,
    total: u64,
    small_roll: u64,
    thread_roll: u64,
)
    requires
        total > 0,
        call_ensures(SmallRng::roll_below, (small, total), small_roll),
        call_ensures(ThreadRng::roll_below, (thread, total), thread_roll),
    ensures
        small_roll < total,
        one_draw(*old(small), total, small_roll, *final(small)),
        thread_roll < total,
        one_draw(*old(thread), total, thread_roll, *final(thread)),
{
}

/// What a roll picks: from an empty list nothing; the first sound where none has any
/// weight; else the one whose share the roll falls into, and past all shares the last.
pub proof fn law_roll_picks_by_share(
    sounds: &[SoundOption],
    roll: u64,
    picked: Option<&SoundOption>,
)
    requires
        call_ensures(pick_by_roll, (sounds, roll), picked),
    ensures
        picked is None <==> sounds@.len() == 0,
        picked matches Some(sound) ==> {
            &&& weightless(sounds@) ==> *sound == sounds@[0]
            &&& !weightless(sounds@) && roll < sum_of_weights(sounds@) ==> exists|i: int|
                #[trigger] falls_to(sounds@, roll as int, i) && *sound == sounds@[i]
            &&& !weightless(sounds@) && roll >= sum_of_weights(sounds@) ==> *sound
                == sounds@[sounds@.len() - 1]
        },
{
    lemma_weightless(sounds@);
    if let Some(sound) = picked {
        let i = choose|i: int|
            #[trigger] chosen_by(sound_views(sounds@), roll as int, i) && *sound == sounds@[i];
        lemma_sum_of_weights(sounds@, i);
        lemma_sum_of_weights(sounds@, i + 1);
        if !weightless(sounds@) && roll < sum_of_weights(sounds@) {
            assert(sound_views(sounds@)[i].weight == sounds@[i].weight);
            assert(falls_to(sounds@, roll as int, i));
        }
    }
}

/// The weighted choice: from an empty list nothing; the first sound where none has any
/// weight, and nothing is drawn for either. Else one number below the sum of the weights
/// is drawn, exactly one, and the sound is the one whose share it falls into.
pub proof fn law_choice_follows_one_draw<R: RollSource + ?Sized>(
    sounds: &[SoundOption],
    rng: &mut R,
    picked: Option<&SoundOption>,
)
    requires
        call_ensures(pick_weighted::<R>, (sounds, rng), picked),
        sum_of_weights(sounds@) <= u64::MAX,
    ensures
        picked is None <==> sounds@.len() == 0,
        weightless(sounds@) ==> &*final(rng) == &*old(rng),
        picked matches Some(sound) ==> weightless(sounds@) ==> *sound == sounds@[0],
        picked matches Some(sound) ==> !weightless(sounds@) ==> exists|roll: u64, i: int|
            {
                &&& #[trigger] old(rng).rolled(
                    sum_of_weights(sounds@) as u64,
                    roll,
                    &*final(rng),
                )
                &&& roll < sum_of_weights(sounds@)
                &&& #[trigger] falls_to(sounds@, roll as int, i)
                &&& *sound == sounds@[i]
            },
{
    lemma_weightless(sounds@);
    if let Some(sound) = picked {
        let views = sound_views(sounds@);
        let i = choose|i: int|
            #[trigger] drawn(&*old(rng), &*final(rng), views, i) && *sound == sounds@[i];
        assert(drawn(&*old(rng), &*final(rng), views, i));
        if !weightless(sounds@) {
            let roll = choose|roll: u64| #[trigger]
                old(rng).rolled(total_weight(views) as u64, roll, &*final(rng)) && roll
                    < total_weight(views) && chosen_by(views, roll as int, i);
            lemma_sum_of_weights(sounds@, i);
            lemma_sum_of_weights(sounds@, i + 1);
            assert(views[i].weight == sounds@[i].weight);
            assert(falls_to(sounds@, roll as int, i));
            assert(old(rng).rolled(sum_of_weights(sounds@) as u64, roll, &*final(rng)));
        }
    }
}

/// A sound can be picked from every list whose weights add up in 64 bits.
pub proof fn law_every_list_can_be_picked_from<R: RollSource + ?Sized>(
    sounds: &[SoundOption],
    roll: u64,
    rng: &mut R,
)
    requires
        sum_of_weights(sounds@) <= u64::MAX,
    ensures
        call_requires(pick_by_roll, (sounds, roll)),
        call_requires(pick_weighted::<R>, (sounds, rng)),
{
    lemma_weightless(sounds@);
}

} // verus!
