//! One resolution pass over every pair of bodies, and what it preserves.
use vstd::prelude::*;

use crate::body::Body;
use crate::geometry::rects_overlap;
use crate::resolve::{
    resolve_static, resolve_swept, static_pair, swept_pair, swept_x_phase, swept_y_phase,
    x_probe, y_probe,
};

verus! {

/// Which collision response a pass applies.
#[derive(Clone, Copy, Debug, PartialEq, Eq, Structural)]
pub enum Policy {
    /// Current-position test, side classification, fixed transfer on side hits.
    Static,
    /// Per-axis one-step look-ahead, friction-scaled transfer on both axes.
    Swept,
}

/// The pair `(a, b)` after resolution under `policy`.
pub open spec fn pair_result(policy: Policy, a: Body, b: Body, dt: u32) -> Option<(Body, Body)> {
    match policy {
        Policy::Static => static_pair(a, b),
        Policy::Swept => swept_pair(a, b, dt),
    }
}

/// Resolves the pairs from `(i, j)` on, in the order
/// `(0, 1), (0, 2), ..., (0, n - 1), (1, 2), ..., (n - 2, n - 1)`, each pair
/// seeing the bodies as earlier pairs left them.
pub open spec fn resolve_from(s: Seq<Body>, policy: Policy, dt: u32, i: int, j: int) -> Option<
    Seq<Body>,
>
    decreases s.len() - i, s.len() + 1 - j,
{
    if i < 0 || j <= i || i >= s.len() {
        Some(s)
    } else if j >= s.len() {
        resolve_from(s, policy, dt, i + 1, i + 2)
    } else {
        match pair_result(policy, s[i], s[j], dt) {
            None => None,
            Some(p) => resolve_from(s.update(i, p.0).update(j, p.1), policy, dt, i, j + 1),
        }
    }
}

/// The bodies after one pass over every pair.
pub open spec fn resolve_all(s: Seq<Body>, policy: Policy, dt: u32) -> Option<Seq<Body>> {
    resolve_from(s, policy, dt, 0, 1)
}

pub open spec fn all_wf(s: Seq<Body>) -> bool {
    forall|k: int| 0 <= k < s.len() ==> #[trigger] s[k].wf()
}

/// `after` is `before` with at most its velocity changed, and a kinematic
/// body does not change at all.
pub open spec fn responds(before: Body, after: Body) -> bool {
    &&& after.position == before.position
    &&& after.extent == before.extent
    &&& after.kinematic == before.kinematic
    &&& after.friction == before.friction
    &&& (before.kinematic ==> after == before)
}

proof fn lemma_with_velocity_responds(b: Body, vx: int, vy: int)
    requires
        b.kinematic ==> vx == b.velocity.x && vy == b.velocity.y,
    ensures
        b.with_velocity(vx, vy) matches Some(b2) ==> responds(b, b2),
{
}

/// A resolved pair differs from the pair before resolution only in the velocities of its
/// non-kinematic bodies.
pub proof fn lemma_pair_responds(policy: Policy, a: Body, b: Body, dt: u32)
    ensures
        pair_result(policy, a, b, dt) matches Some(p) ==> responds(a, p.0) && responds(b, p.1),
{
    if !(a.kinematic && b.kinematic) {
        match policy {
            Policy::Static => {},
            Policy::Swept => {
                if let Some(p) = swept_x_phase(a, b, dt) {
                    assert(responds(a, p.0) && responds(b, p.1));
                    if let Some(q) = swept_y_phase(p.0, p.1, dt) {
                        assert(responds(p.0, q.0) && responds(p.1, q.1));
                    }
                }
            },
        }
    }
}

/// Two kinematic bodies are left exactly as they are, however they overlap.
pub proof fn lemma_kinematic_pair_unchanged(policy: Policy, a: Body, b: Body, dt: u32)
    requires
        a.kinematic,
        b.kinematic,
    ensures
        pair_result(policy, a, b, dt) == Some((a, b)),
{
}

/// Static policy: bodies whose rectangles do not overlap keep their velocities.
pub proof fn lemma_static_apart_unchanged(a: Body, b: Body)
    requires
        !rects_overlap(a.spec_rect(), b.spec_rect()),
    ensures
        static_pair(a, b) == Some((a, b)),
{
    assert(!rects_overlap(b.spec_rect(), a.spec_rect()));
}

/// Swept policy: bodies that overlap under neither axis probe keep their
/// velocities.
pub proof fn lemma_swept_apart_unchanged(a: Body, b: Body, dt: u32)
    requires
        !x_probe(a, b, dt),
        !y_probe(a, b, dt),
    ensures
        swept_pair(a, b, dt) == Some((a, b)),
{
}

proof fn lemma_resolve_from_responds(s: Seq<Body>, policy: Policy, dt: u32, i: int, j: int)
    requires
        0 <= i < j,
    ensures
        resolve_from(s, policy, dt, i, j) matches Some(t) ==> t.len() == s.len() && forall|k: int|
            0 <= k < s.len() ==> #[trigger] responds(s[k], t[k]),
    decreases s.len() - i, s.len() + 1 - j,
{
    if i < 0 || j <= i || i >= s.len() {
    } else if j >= s.len() {
        lemma_resolve_from_responds(s, policy, dt, i + 1, i + 2);
    } else {
        lemma_pair_responds(policy, s[i], s[j], dt);
        if let Some(p) = pair_result(policy, s[i], s[j], dt) {
            let s2 = s.update(i, p.0).update(j, p.1);
            lemma_resolve_from_responds(s2, policy, dt, i, j + 1);
            if let Some(t) = resolve_from(s2, policy, dt, i, j + 1) {
                assert forall|k: int| 0 <= k < s.len() implies #[trigger] responds(s[k], t[k]) by {
                    assert(responds(s2[k], t[k]));
                    assert(responds(s[k], s2[k]));
                }
            }
        }
    }
}

/// A pass changes nothing but velocities, and never touches a kinematic body.
pub proof fn lemma_pass_keeps_kinematic(s: Seq<Body>, policy: Policy, dt: u32)
    ensures
        resolve_all(s, policy, dt) matches Some(t) ==> t.len() == s.len() && forall|k: int|
            0 <= k < s.len() ==> #[trigger] responds(s[k], t[k]),
{
    lemma_resolve_from_responds(s, policy, dt, 0, 1);
}

/// Resolves every pair of `bodies` once under `policy`, over a step of `dt`
/// time units. Returns the updated bodies, or `None` if some velocity would
/// leave `i64` along the way.
pub fn resolve_step(bodies: &Vec<Body>, policy: Policy, dt: u32) -> (r: Option<Vec<Body>>)
    requires
        all_wf(bodies@),
    ensures
        r is None <==> resolve_all(bodies@, policy, dt) is None,
        r matches Some(v) ==> resolve_all(bodies@, policy, dt) == Some(v@),
        r matches Some(v) ==> v@.len() == bodies@.len() && forall|k: int|
            0 <= k < bodies@.len() ==> #[trigger] responds(bodies@[k], v@[k]),
{
    proof {
        lemma_pass_keeps_kinematic(bodies@, policy, dt);
    }
    let n = bodies.len();
    let mut s: Vec<Body> = Vec::new();
    let mut k: usize = 0;
    while k < n
        invariant
            n == bodies@.len(),
            k <= n,
            s@ == bodies@.subrange(0, k as int),
        decreases n - k,
    {
        s.push(bodies[k]);
        k += 1;
        assert(s@ =~= bodies@.subrange(0, k as int));
    }
    assert(s@ =~= bodies@);
    let mut i: usize = 0;
    while i < n
        invariant
            n == bodies@.len(),
            s@.len() == n,
            i <= n,
            all_wf(s@),
            resolve_from(s@, policy, dt, i as int, i + 1) == resolve_all(bodies@, policy, dt),
        decreases n - i,
    {
        let mut j: usize = i + 1;
        while j < n
            invariant
                n == bodies@.len(),
                s@.len() == n,
                i < n,
                i + 1 <= j <= n,
                all_wf(s@),
                resolve_from(s@, policy, dt, i as int, j as int) == resolve_all(bodies@, policy, dt),
            decreases n - j,
        {
            let pair = match policy {
                Policy::Static => resolve_static(&s[i], &s[j]),
                Policy::Swept => resolve_swept(&s[i], &s[j], dt),
            };
            proof {
                lemma_pair_responds(policy, s@[i as int], s@[j as int], dt);
            }
            match pair {
                None => {
                    return None;
                },
                Some((a, b)) => {
                    let ghost old_s = s@;
                    s.set(i, a);
                    s.set(j, b);
                    assert(s@ == old_s.update(i as int, a).update(j as int, b));
                    assert forall|q: int| 0 <= q < s@.len() implies #[trigger] s@[q].wf() by {
                        assert(old_s[q].wf());
                    }
                },
            }
            j += 1;
        }
        i += 1;
    }
    Some(s)
}

} // verus!
