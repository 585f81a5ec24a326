use vstd::prelude::*;

verus! {

/// The pose a copper golem statue shows.
#[derive(Clone, Copy, Debug, PartialEq, Eq, Structural)]
pub enum Pose {
    Standing,
    Sitting,
    Running,
    Star,
}

/// Position of a pose in the order in which a statue cycles through them.
pub open spec fn pose_index(p: Pose) -> int {
    match p {
        Pose::Standing => 0,
        Pose::Sitting => 1,
        Pose::Running => 2,
        Pose::Star => 3,
    }
}

/// The pose at position `i` of the cycle (`i` taken in `0..4`).
pub open spec fn pose_at(i: int) -> Pose {
    if i == 0 {
        Pose::Standing
    } else if i == 1 {
        Pose::Sitting
    } else if i == 2 {
        Pose::Running
    } else {
        Pose::Star
    }
}

/// The pose that follows `p`: the next one in order, the first after the last.
pub open spec fn next_pose(p: Pose) -> Pose {
    pose_at((pose_index(p) + 1) % 4)
}

/// The name under which a pose is stored in an item's block-state properties.
pub open spec fn pose_name(p: Pose) -> Seq<char> {
    match p {
        Pose::Standing => "standing"@,
        Pose::Sitting => "sitting"@,
        Pose::Running => "running"@,
        Pose::Star => "star"@,
    }
}

/// The pose that a name stands for; a name that is none of the others stands for standing.
pub open spec fn pose_named(name: Seq<char>) -> Pose {
    if name == "sitting"@ {
        Pose::Sitting
    } else if name == "running"@ {
        Pose::Running
    } else if name == "star"@ {
        Pose::Star
    } else {
        Pose::Standing
    }
}

/// The comparator signal a statue in pose `p` gives.
pub open spec fn pose_signal(p: Pose) -> int {
    pose_index(p) + 1
}

/// Whether two strings hold the same characters.
pub fn str_eq(a: &str, b: &str) -> (r: bool)
    ensures
        r == (a@ == b@),
{
    let a_owned: String = a.to_owned();
    let b_owned: String = b.to_owned();
    a_owned == b_owned
}

impl Pose {
    /// The pose a statue takes when it is clicked in this one.
    pub fn get_next_pose(&self) -> (r: Pose)
        ensures
            r == next_pose(*self),
            *self is Standing ==> r is Sitting,
            *self is Sitting ==> r is Running,
            *self is Running ==> r is Star,
            *self is Star ==> r is Standing,
    {
        match self {
            Pose::Standing => Pose::Sitting,
            Pose::Sitting => Pose::Running,
            Pose::Running => Pose::Star,
            Pose::Star => Pose::Standing,
        }
    }

    /// The name of this pose.
    pub fn as_str(&self) -> (s: &'static str)
        ensures
            s@ == pose_name(*self),
    {
        match self {
            Pose::Standing => "standing",
            Pose::Sitting => "sitting",
            Pose::Running => "running",
            Pose::Star => "star",
        }
    }

    /// The pose a statue item's `copper_golem_pose` property names.
    pub fn from_name(name: &str) -> (p: Pose)
        ensures
            p == pose_named(name@),
    {
        if str_eq(name, "sitting") {
            Pose::Sitting
        } else if str_eq(name, "running") {
            Pose::Running
        } else if str_eq(name, "star") {
            Pose::Star
        } else {
            Pose::Standing
        }
    }
}

/// Clicking a statue four times brings it back to the pose it had, and the
/// four poses it passes through are all different: every pose is reached.
pub proof fn lemma_pose_cycle(p: Pose)
    ensures
        next_pose(next_pose(next_pose(next_pose(p)))) == p,
        p != next_pose(p),
        p != next_pose(next_pose(p)),
        p != next_pose(next_pose(next_pose(p))),
        next_pose(p) != next_pose(next_pose(p)),
        next_pose(p) != next_pose(next_pose(next_pose(p))),
        next_pose(next_pose(p)) != next_pose(next_pose(next_pose(p))),
{
}

/// The poses are told apart by their names.
pub proof fn lemma_pose_names_distinct()
    ensures
        forall|p: Pose, q: Pose| pose_name(p) == pose_name(q) ==> p == q,
{
    reveal_strlit("standing");
    reveal_strlit("sitting");
    reveal_strlit("running");
    reveal_strlit("star");
    assert("standing"@[1] != "sitting"@[1]);
    assert("standing"@[0] != "running"@[0]);
    assert("standing"@[3] != "star"@[3]);
    assert("sitting"@[0] != "running"@[0]);
    assert("sitting"@[1] != "star"@[1]);
    assert("running"@[0] != "star"@[0]);
}

/// Reading back the name of a pose gives that pose.
pub proof fn lemma_pose_name_round_trip(p: Pose)
    ensures
        pose_named(pose_name(p)) == p,
{
    lemma_pose_names_distinct();
    assert(pose_name(Pose::Sitting) == "sitting"@);
    assert(pose_name(Pose::Running) == "running"@);
    assert(pose_name(Pose::Star) == "star"@);
    assert(pose_name(p) == pose_name(Pose::Sitting) ==> p == Pose::Sitting);
    assert(pose_name(p) == pose_name(Pose::Running) ==> p == Pose::Running);
    assert(pose_name(p) == pose_name(Pose::Star) ==> p == Pose::Star);
}

/// A statue's comparator signal is one of 1 to 4, each pose giving its own,
/// and a click raises it by one, from 4 back to 1.
pub proof fn lemma_signal_follows_pose(p: Pose, q: Pose)
    ensures
        1 <= pose_signal(p) <= 4,
        pose_signal(p) == pose_signal(q) ==> p == q,
        pose_signal(next_pose(p)) == pose_signal(p) % 4 + 1,
{
}

/// A click turns standing to sitting, sitting to running, running to star,
/// and star back to standing.
pub proof fn lemma_next_pose_values()
    ensures
        next_pose(Pose::Standing) == Pose::Sitting,
        next_pose(Pose::Sitting) == Pose::Running,
        next_pose(Pose::Running) == Pose::Star,
        next_pose(Pose::Star) == Pose::Standing,
{
}

} // verus!
