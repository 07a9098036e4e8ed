use vstd::prelude::*;
use rand::Rng;
use crate::world::{
    descending, valid_platform_x, Platform, INITIAL_PLATFORMS, PLATFORM_GAP, PLATFORM_X_MAX,
    WINDOW_HEIGHT,
};

verus! {

/// Relies on rand::thread_rng and rand::Rng::gen_range: a value drawn from the
/// inclusive range `0..=hi`, which is not empty since `hi >= 0`.
#[verifier::external_body]
fn random_up_to(hi: i32) -> (r: i32)
    requires
        0 <= hi,
    ensures
        0 <= r <= hi,
{
    rand::thread_rng().gen_range(0..=hi)
}

/// A horizontal position for a new platform, drawn uniformly from the legal range.
pub fn random_platform_x() -> (r: i32)
    ensures
        valid_platform_x(r as int),
{
    random_up_to(PLATFORM_X_MAX as i32)
}

/// Every position in `xs` is a legal left edge.
pub open spec fn valid_xs(xs: Seq<i32>) -> bool {
    forall|i: int| 0 <= i < xs.len() ==> valid_platform_x(#[trigger] xs[i] as int)
}

/// The initial platforms at the left edges `xs`, from the bottom up: the first
/// one gap above the bottom of the field, each next one a gap higher.
pub open spec fn initial_platforms(xs: Seq<i32>) -> Seq<Platform> {
    Seq::new(xs.len(), |i: int| Platform { x: xs[i], y: (WINDOW_HEIGHT - PLATFORM_GAP * (i + 1)) as i32 })
}

/// The platforms after the spawn rule with `x` as the new left edge: when the
/// topmost platform lies below the top of the field, one platform is appended a
/// gap above it.
pub open spec fn spawned(s: Seq<Platform>, x: i32) -> Seq<Platform> {
    if s.len() > 0 && s.last().y > 0 {
        s.push(Platform { x, y: (s.last().y - PLATFORM_GAP) as i32 })
    } else {
        s
    }
}

/// A platform that has not scrolled off the bottom of the field.
pub open spec fn on_screen(q: Platform) -> bool {
    q.y < WINDOW_HEIGHT
}

/// The platforms of `s` that are still on screen, in their order.
pub open spec fn pruned(s: Seq<Platform>) -> Seq<Platform> {
    s.filter(|q: Platform| on_screen(q))
}

/// Appends the initial platforms at the left edges `xs`.
pub fn push_initial_platforms(platforms: &mut Vec<Platform>, xs: &Vec<i32>)
    requires
        xs.len() <= INITIAL_PLATFORMS,
    ensures
        final(platforms)@ == old(platforms)@ + initial_platforms(xs@),
{
    let ghost start = platforms@;
    let mut i: usize = 0;
    while i < xs.len()
        invariant
            i <= xs.len() <= INITIAL_PLATFORMS,
            platforms@ == start + initial_platforms(xs@.subrange(0, i as int)),
        decreases xs.len() - i,
    {
        let y = (WINDOW_HEIGHT - PLATFORM_GAP * (i as i64 + 1)) as i32;
        platforms.push(Platform { x: xs[i], y });
        i = i + 1;
        assert(initial_platforms(xs@.subrange(0, i as int)) =~= initial_platforms(
            xs@.subrange(0, i as int - 1),
        ).push(Platform { x: xs@[i as int - 1], y }));
    }
    assert(xs@.subrange(0, i as int) =~= xs@);
}

/// Appends the initial batch of platforms, at random left edges.
pub fn generate_initial_platforms(platforms: &mut Vec<Platform>)
    ensures
        exists|xs: Seq<i32>|
            #![trigger initial_platforms(xs)]
            xs.len() == INITIAL_PLATFORMS && valid_xs(xs) && final(platforms)@ == old(platforms)@
                + initial_platforms(xs),
{
    let mut xs: Vec<i32> = Vec::new();
    let mut i: usize = 0;
    while i < INITIAL_PLATFORMS
        invariant
            i <= INITIAL_PLATFORMS,
            xs.len() == i,
            valid_xs(xs@),
        decreases INITIAL_PLATFORMS - i,
    {
        let x = random_platform_x();
        xs.push(x);
        i = i + 1;
    }
    push_initial_platforms(platforms, &xs);
}

/// Applies the spawn rule with `x` as the left edge of a new platform.
pub fn spawn_platform(platforms: &mut Vec<Platform>, x: i32)
    ensures
        final(platforms)@ == spawned(old(platforms)@, x),
{
    let n = platforms.len();
    if n > 0 {
        let top = platforms[n - 1].y;
        if top > 0 {
            platforms.push(Platform { x, y: top - PLATFORM_GAP as i32 });
        }
    }
}

/// Pruning keeps only platforms of `s`, and keeps their order.
pub proof fn lemma_pruned_from(s: Seq<Platform>)
    ensures
        pruned(s).len() <= s.len(),
        forall|k: int| 0 <= k < pruned(s).len() ==> s.contains(#[trigger] pruned(s)[k]),
        forall|k: int| 0 <= k < pruned(s).len() ==> on_screen(#[trigger] pruned(s)[k]),
        (forall|k: int| 0 <= k < s.len() ==> on_screen(#[trigger] s[k])) ==> pruned(s) == s,
        descending(s) ==> descending(pruned(s)),
    decreases s.len(),
{
    reveal(Seq::filter);
    if s.len() > 0 {
        let d = s.drop_last();
        lemma_pruned_from(d);
        let pd = pruned(d);
        assert forall|k: int| 0 <= k < pd.len() implies s.contains(#[trigger] pd[k]) by {
            let j = choose|j: int| 0 <= j < d.len() && d[j] == pd[k];
            assert(s[j] == pd[k]);
        }
        assert(s[s.len() - 1] == s.last());
        if forall|k: int| 0 <= k < s.len() ==> on_screen(#[trigger] s[k]) {
            assert(on_screen(s[s.len() - 1]));
            assert(forall|k: int| 0 <= k < d.len() ==> #[trigger] d[k] == s[k]);
            assert(pruned(s) =~= s);
        }
        if descending(s) {
            assert forall|k: int| 0 <= k < pd.len() implies #[trigger] pd[k].y > s.last().y by {
                let j = choose|j: int| 0 <= j < d.len() && d[j] == pd[k];
                assert(s[j] == pd[k]);
            }
        }
    }
}

/// Removes every platform that has scrolled off the bottom of the field,
/// keeping the others in order.
pub fn prune(platforms: &mut Vec<Platform>)
    ensures
        final(platforms)@ == pruned(old(platforms)@),
{
    let ghost s = platforms@;
    let mut kept: Vec<Platform> = Vec::new();
    let mut i: usize = 0;
    while i < platforms.len()
        invariant
            s == platforms@,
            i <= s.len(),
            kept@ == pruned(s.subrange(0, i as int)),
        decreases s.len() - i,
    {
        let q = platforms[i];
        proof {
            let t = s.subrange(0, i as int + 1);
            assert(t.drop_last() =~= s.subrange(0, i as int));
            reveal(Seq::filter);
        }
        if q.y < WINDOW_HEIGHT as i32 {
            kept.push(q);
        }
        i = i + 1;
    }
    assert(s.subrange(0, i as int) =~= s);
    *platforms = kept;
}

} // verus!
