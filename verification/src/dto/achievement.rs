//! Achievements as clients see and send them.
//!
//! The database hands achievements out as one row per goal, the goals of one
//! achievement next to each other; clients get one value per achievement with
//! its goals inside. A new achievement is taken only if its goals are
//! numbered 0, 1, 2 and so on without a gap, in whatever order they were sent.

use crate::database::models::achievement::{AchievementCreate, AchievementGoal, GoalCreate};
use crate::dto::goal::{GoalCreatePayload, GoalPayload};
use crate::error::AppError;
use crate::text::copy_text;
use vstd::prelude::*;
use vstd::string::*;

verus! {

/// An achievement with its goals.
#[derive(Debug, Clone, PartialEq, Eq)]
pub struct AchievementPayload {
    pub id: i32,
    pub name: String,
    pub goals: Vec<GoalPayload>,
}

/// An achievement that a client wants to create.
#[derive(Debug, Clone, PartialEq, Eq)]
pub struct AchievementCreatePayload {
    pub name: String,
    pub goals: Vec<GoalCreatePayload>,
}

/// The goal that a row holds.
pub open spec fn goal_of(row: AchievementGoal) -> GoalPayload {
    GoalPayload { id: row.goal_id, description: row.goal_description, sequence: row.goal_sequence }
}

/// Where the run of rows that belong to the achievement of row `start` ends,
/// given that it reaches at least up to row `at`: behind `at` where the next
/// row belongs to another achievement or there is no next row.
pub open spec fn run_end_from(rows: Seq<AchievementGoal>, start: int, at: int) -> int
    decreases rows.len() - at,
{
    if at + 1 >= rows.len() {
        rows.len() as int
    } else if rows[at + 1].achievement_id != rows[start].achievement_id {
        at + 1
    } else {
        run_end_from(rows, start, at + 1)
    }
}

/// Where the run of rows that starts at `start` ends: at the first row after
/// it that belongs to another achievement, or behind the last row.
pub open spec fn run_end(rows: Seq<AchievementGoal>, start: int) -> int {
    run_end_from(rows, start, start)
}

/// Whether `achievement` is what the rows from `start` up to `end` hold: the
/// achievement of the first of them, with the goal of each in order.
pub open spec fn is_unpacked(
    rows: Seq<AchievementGoal>,
    start: int,
    end: int,
    achievement: AchievementPayload,
) -> bool {
    &&& achievement.id == rows[start].achievement_id
    &&& achievement.name == rows[start].achievement_name
    &&& achievement.goals@ == Seq::new((end - start) as nat, |k: int| goal_of(rows[start + k]))
}

/// Whether one of the goals carries the number `k`.
pub open spec fn has_number(goals: Seq<GoalCreatePayload>, k: int) -> bool {
    exists|i: int| 0 <= i < goals.len() && (#[trigger] goals[i]).sequence == k
}

/// Whether the sequence numbers of the goals are exactly 0, 1, 2 and so on,
/// one goal for each number.
pub open spec fn counts_up(goals: Seq<GoalCreatePayload>) -> bool {
    forall|k: int| 0 <= k < goals.len() ==> #[trigger] has_number(goals, k)
}

/// The goal as it is stored.
pub open spec fn stored_goal(goal: GoalCreatePayload) -> GoalCreate {
    GoalCreate { description: goal.description, sequence: goal.sequence }
}

/// Whether `stored` is one of the goals that carry the number `k`, as it is
/// stored.
pub open spec fn is_numbered(goals: Seq<GoalCreatePayload>, k: int, stored: GoalCreate) -> bool {
    exists|i: int|
        0 <= i < goals.len() && (#[trigger] goals[i]).sequence == k && stored == stored_goal(
            goals[i],
        )
}

/// Whether `create` is what a payload with these goals is stored as: the
/// goal numbered `k` stands at place `k`.
pub open spec fn is_ordered(
    name: String,
    goals: Seq<GoalCreatePayload>,
    create: AchievementCreate,
) -> bool {
    &&& create.name == name
    &&& create.goals.len() == goals.len()
    &&& forall|k: int| 0 <= k < goals.len() ==> is_numbered(goals, k, #[trigger] create.goals[k])
}

/// Unpacks the achievement whose rows start at `start`, and says where the
/// next achievement's rows start. There is none where no row is left.
pub fn unpack_next_achievement(rows: &Vec<AchievementGoal>, start: usize) -> (next: Option<
    (AchievementPayload, usize),
>)
    ensures
        next is None <==> start >= rows.len(),
        next matches Some((achievement, end)) ==> {
            &&& start < end <= rows.len()
            &&& end == run_end(rows@, start as int)
            &&& is_unpacked(rows@, start as int, end as int, achievement)
        },
{
    if start >= rows.len() {
        return None;
    }
    let id = rows[start].achievement_id;
    let name = copy_text(&rows[start].achievement_name);
    let mut goals: Vec<GoalPayload> = Vec::new();
    goals.push(
        GoalPayload {
            id: rows[start].goal_id,
            description: copy_text(&rows[start].goal_description),
            sequence: rows[start].goal_sequence,
        },
    );
    let mut at: usize = start;
    loop
        invariant_except_break
            start <= at < rows.len(),
            id == rows[start as int].achievement_id,
            goals@ == Seq::new((at + 1 - start) as nat, |k: int| goal_of(rows[start + k])),
            run_end(rows@, start as int) == run_end_from(rows@, start as int, at as int),
        ensures
            start <= at < rows.len(),
            at + 1 == run_end(rows@, start as int),
            goals@ == Seq::new((at + 1 - start) as nat, |k: int| goal_of(rows[start + k])),
        decreases rows.len() - at,
    {
        if at + 1 >= rows.len() {
            break;
        }
        if rows[at + 1].achievement_id != id {
            break;
        }
        at = at + 1;
        goals.push(
            GoalPayload {
                id: rows[at].goal_id,
                description: copy_text(&rows[at].goal_description),
                sequence: rows[at].goal_sequence,
            },
        );
        assert(goals@ =~= Seq::new((at + 1 - start) as nat, |k: int| goal_of(rows[start + k])));
    }
    Some((AchievementPayload { id, name, goals }, at + 1))
}

impl AchievementPayload {
    /// Packs the rows of a service into its achievements: one achievement
    /// for each run of rows that belong together, in the order of the rows.
    pub fn for_service(rows: &Vec<AchievementGoal>) -> (achievements: Vec<AchievementPayload>)
        ensures
            rows.len() == 0 <==> achievements.len() == 0,
            achievements.len() <= rows.len(),
            exists|starts: Seq<int>|
                {
                    &&& starts.len() == achievements.len() + 1
                    &&& starts[0] == 0
                    &&& starts[achievements.len() as int] == rows.len()
                    &&& forall|a: int|
                        0 <= a < achievements.len() ==> {
                            &&& 0 <= #[trigger] starts[a] < rows.len()
                            &&& starts[a + 1] == run_end(rows@, starts[a])
                            &&& is_unpacked(rows@, starts[a], starts[a + 1], achievements[a])
                        }
                },
    {
        let mut achievements: Vec<AchievementPayload> = Vec::new();
        let mut start: usize = 0;
        let ghost mut starts: Seq<int> = seq![0int];
        loop
            invariant_except_break
                start <= rows.len(),
                achievements.len() <= start,
                start == 0 <==> achievements.len() == 0,
                starts.len() == achievements.len() + 1,
                starts[0] == 0,
                starts[achievements.len() as int] == start,
                forall|a: int|
                    0 <= a < achievements.len() ==> {
                        &&& 0 <= #[trigger] starts[a] < rows.len()
                        &&& starts[a + 1] == run_end(rows@, starts[a])
                        &&& is_unpacked(rows@, starts[a], starts[a + 1], achievements[a])
                    },
            ensures
                start == rows.len(),
                achievements.len() <= start,
                start == 0 <==> achievements.len() == 0,
                starts.len() == achievements.len() + 1,
                starts[0] == 0,
                starts[achievements.len() as int] == start,
                forall|a: int|
                    0 <= a < achievements.len() ==> {
                        &&& 0 <= #[trigger] starts[a] < rows.len()
                        &&& starts[a + 1] == run_end(rows@, starts[a])
                        &&& is_unpacked(rows@, starts[a], starts[a + 1], achievements[a])
                    },
            decreases rows.len() - start,
        {
            match unpack_next_achievement(rows, start) {
                None => {
                    break;
                },
                Some((achievement, end)) => {
                    let ghost before = starts;
                    proof {
                        starts = starts.push(end as int);
                    }
                    achievements.push(achievement);
                    assert forall|a: int| 0 <= a < achievements.len() implies {
                        &&& 0 <= #[trigger] starts[a] < rows.len()
                        &&& starts[a + 1] == run_end(rows@, starts[a])
                        &&& is_unpacked(rows@, starts[a], starts[a + 1], achievements[a])
                    } by {
                        if a < achievements.len() - 1 {
                            assert(starts[a] == before[a]);
                            assert(starts[a + 1] == before[a + 1]);
                        }
                    }
                    start = end;
                },
            }
        }
        achievements
    }
}

impl AchievementCreatePayload {
    /// The place of the goal that carries the number `k`, if there is one.
    fn goal_numbered(&self, k: u32) -> (place: Option<usize>)
        ensures
            place is Some <==> has_number(self.goals@, k as int),
            place matches Some(i) ==> i < self.goals.len() && self.goals[i as int].sequence == k,
    {
        let mut i: usize = 0;
        while i < self.goals.len()
            invariant
                i <= self.goals.len(),
                forall|j: int| 0 <= j < i ==> (#[trigger] self.goals[j]).sequence != k,
            decreases self.goals.len() - i,
        {
            if self.goals[i].sequence == k {
                return Some(i);
            }
            i = i + 1;
        }
        None
    }

    /// Checks a new achievement and puts its goals in order. It needs at
    /// least one goal, and the goals' numbers must count up from 0 by 1.
    pub fn create(self) -> (result: Result<AchievementCreate, AppError>)
        ensures
            self.goals.len() == 0 ==> (result matches Err(AppError::PayloadError(message))
                && message@ == "Expected at least one goal"@),
            self.goals.len() > 0 && !counts_up(self.goals@) ==> (result matches Err(
                AppError::PayloadError(message),
            ) && message@ == "Sequence should start with 0 and count up by 1"@),
            self.goals.len() > 0 && counts_up(self.goals@) ==> (result matches Ok(create)
                && is_ordered(self.name, self.goals@, create)),
    {
        if self.goals.len() == 0 {
            return Err(AppError::PayloadError(String::from_str("Expected at least one goal")));
        }
        if self.goals.len() as u64 > 0x1_0000_0000u64 {
            // more goals than there are numbers: two of them share one
            proof {
                lemma_too_many_goals(self.goals@);
            }
            return Err(
                AppError::PayloadError(
                    String::from_str("Sequence should start with 0 and count up by 1"),
                ),
            );
        }
        let mut goals: Vec<GoalCreate> = Vec::new();
        let mut k: usize = 0;
        while k < self.goals.len()
            invariant
                k <= self.goals.len(),
                self.goals.len() <= 0x1_0000_0000u64,
                goals.len() == k,
                forall|n: int| 0 <= n < k ==> is_numbered(self.goals@, n, #[trigger] goals[n]),
            decreases self.goals.len() - k,
        {
            match self.goal_numbered(k as u32) {
                None => {
                    return Err(
                        AppError::PayloadError(
                            String::from_str("Sequence should start with 0 and count up by 1"),
                        ),
                    );
                },
                Some(i) => {
                    let ghost before = goals@;
                    goals.push(
                        GoalCreate {
                            description: copy_text(&self.goals[i].description),
                            sequence: self.goals[i].sequence,
                        },
                    );
                    assert forall|n: int| 0 <= n < k + 1 implies is_numbered(
                        self.goals@,
                        n,
                        #[trigger] goals[n],
                    ) by {
                        if n < k {
                            assert(goals[n] == before[n]);
                        } else {
                            assert(goals[n] == stored_goal(self.goals[i as int]));
                        }
                    }
                },
            }
            k = k + 1;
        }
        assert forall|n: int| 0 <= n < self.goals.len() implies #[trigger] has_number(
            self.goals@,
            n,
        ) by {
            assert(is_numbered(self.goals@, n, goals[n]));
        }
        Ok(AchievementCreate { name: self.name, goals })
    }
}

/// More goals than a sequence number can tell apart cannot count up.
proof fn lemma_too_many_goals(goals: Seq<GoalCreatePayload>)
    requires
        goals.len() > 0x1_0000_0000,
    ensures
        !counts_up(goals),
{
    if counts_up(goals) {
        assert(has_number(goals, 0x1_0000_0000));
    }
}

} // verus!
