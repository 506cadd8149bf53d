use vstd::prelude::*;

use crate::error::{ApiError, Reply, STATUS_OK};

verus! {

/// One activity of the athlete, as the service lists it.
///
/// Each measurement is kept as the bit pattern of the `f32` the service sent
/// (`f32::to_bits`); the library only carries them.
#[derive(Debug)]
pub struct Activity {
    /// Elapsed time in seconds.
    pub elapsed_time: u32,
    /// The activity's type tag ("Run", "Ride", ...).
    pub activity_type: String,
    /// Average heart rate; present only when `has_heartrate` holds.
    pub average_heartrate: Option<u32>,
    /// Maximum heart rate; present only when `has_heartrate` holds.
    pub max_heartrate: Option<u32>,
    pub has_heartrate: bool,
    pub average_speed: u32,
    pub max_speed: u32,
    /// Moving time in seconds.
    pub moving_time: u32,
    pub name: String,
    /// Number of personal records set.
    pub pr_count: u32,
}

impl Activity {
    /// The record as it is kept: without heart rates when it has none.
    pub open spec fn normalized(self) -> Activity {
        if self.has_heartrate {
            self
        } else {
            Activity {
                elapsed_time: self.elapsed_time,
                activity_type: self.activity_type,
                average_heartrate: None,
                max_heartrate: None,
                has_heartrate: self.has_heartrate,
                average_speed: self.average_speed,
                max_speed: self.max_speed,
                moving_time: self.moving_time,
                name: self.name,
                pr_count: self.pr_count,
            }
        }
    }

    /// Heart rates are absent where the activity has none.
    pub open spec fn wf(&self) -> bool {
        !self.has_heartrate ==> self.average_heartrate is None && self.max_heartrate is None
    }

    /// Drops heart rates from a record that says it has none.
    pub fn normalize(self) -> (r: Activity)
        ensures
            r == self.normalized(),
            r.wf(),
    {
        if self.has_heartrate {
            self
        } else {
            Activity {
                elapsed_time: self.elapsed_time,
                activity_type: self.activity_type,
                average_heartrate: None,
                max_heartrate: None,
                has_heartrate: self.has_heartrate,
                average_speed: self.average_speed,
                max_speed: self.max_speed,
                moving_time: self.moving_time,
                name: self.name,
                pr_count: self.pr_count,
            }
        }
    }

    /// Takes the reply of the activities endpoint: the records of the body,
    /// normalized and in order, when the status is 200 and the body decoded;
    /// no records otherwise.
    pub fn fetch_recent(reply: Reply<Vec<Activity>>) -> (r: Result<Vec<Activity>, ApiError>)
        ensures
            match fetch_outcome(reply) {
                Ok(s) => r matches Ok(v) && v@ == s,
                Err(e) => r == Err::<Vec<Activity>, ApiError>(e),
            },
            r matches Ok(v) ==> forall|i: int| 0 <= i < v@.len() ==> #[trigger] v@[i].wf(),
    {
        match reply {
            Reply::Failed => Err(ApiError::Transport),
            Reply::Answered { status, body } => {
                if status != STATUS_OK {
                    Err(ApiError::Fetch(status))
                } else {
                    match body {
                        Some(v) => Ok(normalize_all(v)),
                        None => Err(ApiError::Decode),
                    }
                }
            },
        }
    }
}

/// Every record of `s`, normalized.
pub open spec fn normalized_all(s: Seq<Activity>) -> Seq<Activity> {
    s.map_values(|a: Activity| a.normalized())
}

/// What the activities endpoint's reply yields.
pub open spec fn fetch_outcome(reply: Reply<Vec<Activity>>) -> Result<Seq<Activity>, ApiError> {
    match reply {
        Reply::Failed => Err(ApiError::Transport),
        Reply::Answered { status, body } => if status != STATUS_OK {
            Err(ApiError::Fetch(status))
        } else {
            match body {
                Some(v) => Ok(normalized_all(v@)),
                None => Err(ApiError::Decode),
            }
        },
    }
}

/// Every record that an accepted fetch yields and that has no heart rate
/// carries neither an average nor a maximum heart rate, whatever the body held.
pub proof fn lemma_fetched_without_heartrate(reply: Reply<Vec<Activity>>, i: int)
    requires
        fetch_outcome(reply) is Ok,
        0 <= i < fetch_outcome(reply)->Ok_0.len(),
        !fetch_outcome(reply)->Ok_0[i].has_heartrate,
    ensures
        fetch_outcome(reply)->Ok_0[i].average_heartrate is None,
        fetch_outcome(reply)->Ok_0[i].max_heartrate is None,
{
}

fn normalize_all(v: Vec<Activity>) -> (r: Vec<Activity>)
    ensures
        r@ == normalized_all(v@),
        forall|i: int| 0 <= i < r@.len() ==> #[trigger] r@[i].wf(),
{
    let ghost all = v@;
    let mut rest = v;
    let mut out: Vec<Activity> = Vec::new();
    while rest.len() > 0
        invariant
            out@.len() + rest@.len() == all.len(),
            rest@ == all.subrange(out@.len() as int, all.len() as int),
            out@ == normalized_all(all.subrange(0, out@.len() as int)),
            forall|i: int| 0 <= i < out@.len() ==> #[trigger] out@[i].wf(),
        decreases rest@.len(),
    {
        let a = rest.remove(0);
        let ghost k = out@.len() as int;
        out.push(a.normalize());
        assert(all.subrange(0, k + 1) =~= all.subrange(0, k).push(all[k]));
        assert(out@ =~= normalized_all(all.subrange(0, k + 1)));
        assert(rest@ =~= all.subrange(k + 1, all.len() as int));
    }
    assert(all.subrange(0, all.len() as int) =~= all);
    out
}

} // verus!
