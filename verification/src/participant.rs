//! The participants of a task, and how many of them a role may have.

use vstd::prelude::*;
use vstd::string::*;

verus! {

/// One participant of a task: a user, and the role the user was given.
#[derive(Debug, PartialEq, Eq)]
pub struct Participant {
    pub user_id: String,
    pub role: String,
}

/// A participant with its strings taken as texts.
pub struct ParticipantView {
    pub user_id: Seq<char>,
    pub role: Seq<char>,
}

impl View for Participant {
    type V = ParticipantView;

    open spec fn view(&self) -> ParticipantView {
        ParticipantView { user_id: self.user_id@, role: self.role@ }
    }
}

impl Clone for Participant {
    fn clone(&self) -> (r: Self)
        ensures
            r == *self,
    {
        Participant { user_id: self.user_id.clone(), role: self.role.clone() }
    }
}

/// The views of a list of participants.
pub open spec fn participant_views(participants: Seq<Participant>) -> Seq<ParticipantView> {
    participants.map_values(|p: Participant| p@)
}

/// The test for a participant's role to be `role`.
pub open spec fn has_role(role: Seq<char>) -> spec_fn(ParticipantView) -> bool {
    |p: ParticipantView| p.role == role
}

/// The participants with the role `role`, in the order of `participants`. A
/// position among them is what a step's index addresses.
pub open spec fn of_role(participants: Seq<ParticipantView>, role: Seq<char>) -> Seq<
    ParticipantView,
> {
    participants.filter(has_role(role))
}

/// The participants with the role `role_name`, in the order of `participants`.
pub fn get_role_participants(participants: &Vec<Participant>, role_name: &str) -> (r: Vec<
    Participant,
>)
    ensures
        participant_views(r@) == of_role(participant_views(participants@), role_name@),
{
    let wanted: String = role_name.to_string();
    let ghost all = participant_views(participants@);
    let mut out: Vec<Participant> = Vec::new();
    let mut i: usize = 0;
    proof {
        reveal(Seq::filter);
        assert(all.take(0) =~= Seq::<ParticipantView>::empty());
    }
    while i < participants.len()
        invariant
            0 <= i <= participants@.len(),
            wanted@ == role_name@,
            all == participant_views(participants@),
            participant_views(out@) == all.take(i as int).filter(has_role(role_name@)),
        decreases participants@.len() - i,
    {
        let ghost before = participant_views(out@);
        proof {
            reveal(Seq::filter);
            assert(all.take(i + 1).drop_last() =~= all.take(i as int));
            assert(all.take(i + 1).last() == participants@[i as int]@);
        }
        if participants[i].role == wanted {
            out.push(participants[i].clone());
            assert(participant_views(out@) =~= before.push(participants@[i as int]@));
        }
        i = i + 1;
    }
    proof {
        assert(all.take(i as int) =~= all);
    }
    out
}

/// Whether a role with the bounds `min_num` and `max_num` may have `count`
/// participants. A bound that is absent does not bind.
pub open spec fn count_allowed(count: nat, min_num: Option<i64>, max_num: Option<i64>) -> bool {
    &&& max_num matches Some(max) ==> count <= max
    &&& min_num matches Some(min) ==> min <= count
}

/// Whether a role with the bounds `min_num` and `max_num` may have `count`
/// participants.
pub fn count_is_allowed(count: usize, min_num: Option<i64>, max_num: Option<i64>) -> (r: bool)
    ensures
        r == count_allowed(count as nat, min_num, max_num),
{
    let below_max: bool = match max_num {
        Some(max) => max >= 0 && count as u64 <= max as u64,
        None => true,
    };
    let above_min: bool = match min_num {
        Some(min) => min <= 0 || min as u64 <= count as u64,
        None => true,
    };
    below_max && above_min
}

} // verus!
