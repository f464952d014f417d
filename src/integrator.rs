use vstd::prelude::*;

verus! {

/// What a traced ray met in the scene.
#[derive(Clone, Copy, Debug, PartialEq, Eq, Structural)]
pub enum Contact {
    /// No surface: the ray leaves the scene.
    Missed,
    /// A surface whose material proposes no scattered ray (it absorbs, or only emits).
    Absorbed,
    /// A surface whose material proposes a scattered ray.
    Scattered,
}

/// How the radiance estimate of one ray is formed.
#[derive(Clone, Copy, Debug, PartialEq, Eq, Structural)]
pub enum PathStep {
    /// The bounce budget is spent: the estimate is black.
    Cutoff,
    /// The ray left the scene: the estimate is the background.
    Escaped,
    /// The path ends on the surface: the estimate is the surface's emission alone.
    Stopped,
    /// The estimate is the surface's emission plus the weighted estimate of the scattered
    /// ray, traced with `depth` bounces left.
    Bounce { depth: usize },
}

/// The step taken by a ray traced with `depth` bounces left that met `contact`; with no
/// bounce left the scene is not consulted.
pub open spec fn step_of(depth: nat, contact: Contact) -> PathStep {
    if depth == 0 {
        PathStep::Cutoff
    } else {
        match contact {
            Contact::Missed => PathStep::Escaped,
            Contact::Absorbed => PathStep::Stopped,
            Contact::Scattered => PathStep::Bounce { depth: (depth - 1) as usize },
        }
    }
}

/// The step of the radiance estimate for a ray traced with `depth` bounces left.
pub fn next_step(depth: usize, contact: Contact) -> (r: PathStep)
    ensures
        r == step_of(depth as nat, contact),
{
    if depth == 0 {
        PathStep::Cutoff
    } else {
        match contact {
            Contact::Missed => PathStep::Escaped,
            Contact::Absorbed => PathStep::Stopped,
            Contact::Scattered => PathStep::Bounce { depth: depth - 1 },
        }
    }
}

/// The number of surfaces that a path traced with `depth` bounces left meets, when its
/// rays meet `contacts` in turn.
pub open spec fn surfaces_met(depth: nat, contacts: Seq<Contact>) -> nat
    decreases depth,
{
    if depth == 0 || contacts.len() == 0 {
        0
    } else {
        match step_of(depth, contacts[0]) {
            PathStep::Bounce { .. } => 1 + surfaces_met((depth - 1) as nat, contacts.drop_first()),
            PathStep::Escaped => 0,
            _ => 1,
        }
    }
}

/// A path ends: whatever its rays meet, it meets at most as many surfaces as it has
/// bounces, and each step hands on a budget one smaller than it was given.
pub proof fn lemma_path_ends(depth: nat, contacts: Seq<Contact>)
    ensures
        surfaces_met(depth, contacts) <= depth,
        forall|c: Contact| #[trigger] step_of(depth, c) matches PathStep::Bounce { depth: d } ==> d
            < depth,
    decreases depth,
{
    if depth > 0 && contacts.len() > 0 {
        lemma_path_ends((depth - 1) as nat, contacts.drop_first());
    }
}

/// With a budget of one bounce the scattered ray is cut off and adds black, so the
/// estimate is the emission of the surface seen directly (or the background).
pub proof fn lemma_one_bounce_is_direct(first: Contact, second: Contact)
    ensures
        step_of(1, first) matches PathStep::Bounce { depth: d } ==> step_of(d as nat, second)
            == PathStep::Cutoff,
        step_of(1, first) != PathStep::Cutoff,
{
}

} // verus!
