//! The activities that the bot shows as its status, one of them drawn at
//! random each time the status changes.

use vstd::prelude::*;
use crate::palette::random_index;

verus! {

/// How an activity is shown.
#[derive(Clone, Copy, Debug, PartialEq, Eq, Structural)]
pub enum ActivityKind {
    Playing,
    Watching,
    Listening,
    Custom,
}

/// An activity: its kind and its name.
pub struct Activity {
    pub kind: ActivityKind,
    pub name: String,
}

/// How long an activity stays before the next is drawn, in seconds.
pub const ROTATION_SECS: u64 = 3600;

/// The activities, in order.
pub open spec fn activity_table() -> Seq<(ActivityKind, Seq<char>)> {
    seq![
        (ActivityKind::Playing, "Pokémon"@),
        (ActivityKind::Playing, "Gooning Aim Trainer"@),
        (ActivityKind::Playing, "Battletoads"@),
        (ActivityKind::Playing, "Counter-Strike 2"@),
        (ActivityKind::Playing, "Hello Kitty Island Adventure"@),
        (ActivityKind::Playing, "Badminton"@),
        (ActivityKind::Watching, "JasonTheWeen"@),
        (ActivityKind::Watching, "xQc"@),
        (ActivityKind::Watching, "Pokimane"@),
        (ActivityKind::Watching, "Dantes"@),
        (ActivityKind::Listening, "ZWE1HVNDXR"@),
        (ActivityKind::Listening, "Illenium"@),
        (ActivityKind::Listening, "The Chainsmokers"@),
        (ActivityKind::Listening, "KSI"@),
        (ActivityKind::Custom, "Going to Plan B"@),
        (ActivityKind::Custom, "Clubbing at Mission"@),
        (ActivityKind::Custom, "Waiting in line at Den Social"@),
    ]
}

/// What an activity stands for in the table.
pub open spec fn activity_entry(a: Activity) -> (ActivityKind, Seq<char>) {
    (a.kind, a.name@)
}

/// The activities, in order.
pub fn activities() -> (r: Vec<Activity>)
    ensures
        r@.map_values(|a: Activity| activity_entry(a)) == activity_table(),
{
    let mut v: Vec<Activity> = Vec::new();
    v.push(Activity { kind: ActivityKind::Playing, name: String::from_str("Pokémon") });
    v.push(Activity { kind: ActivityKind::Playing, name: String::from_str("Gooning Aim Trainer") });
    v.push(Activity { kind: ActivityKind::Playing, name: String::from_str("Battletoads") });
    v.push(Activity { kind: ActivityKind::Playing, name: String::from_str("Counter-Strike 2") });
    v.push(Activity { kind: ActivityKind::Playing, name: String::from_str("Hello Kitty Island Adventure") });
    v.push(Activity { kind: ActivityKind::Playing, name: String::from_str("Badminton") });
    v.push(Activity { kind: ActivityKind::Watching, name: String::from_str("JasonTheWeen") });
    v.push(Activity { kind: ActivityKind::Watching, name: String::from_str("xQc") });
    v.push(Activity { kind: ActivityKind::Watching, name: String::from_str("Pokimane") });
    v.push(Activity { kind: ActivityKind::Watching, name: String::from_str("Dantes") });
    v.push(Activity { kind: ActivityKind::Listening, name: String::from_str("ZWE1HVNDXR") });
    v.push(Activity { kind: ActivityKind::Listening, name: String::from_str("Illenium") });
    v.push(Activity { kind: ActivityKind::Listening, name: String::from_str("The Chainsmokers") });
    v.push(Activity { kind: ActivityKind::Listening, name: String::from_str("KSI") });
    v.push(Activity { kind: ActivityKind::Custom, name: String::from_str("Going to Plan B") });
    v.push(Activity { kind: ActivityKind::Custom, name: String::from_str("Clubbing at Mission") });
    v.push(Activity { kind: ActivityKind::Custom, name: String::from_str("Waiting in line at Den Social") });
    assert(v@.map_values(|a: Activity| activity_entry(a)) =~= activity_table());
    v
}

/// The number of activities.
pub const ACTIVITY_COUNT: usize = 17;

/// The activity at index `i` of the table.
pub fn activity_at(i: usize) -> (r: Activity)
    requires
        i < ACTIVITY_COUNT,
    ensures
        activity_entry(r) == activity_table()[i as int],
{
    let mut v = activities();
    let ghost entries = v@.map_values(|a: Activity| activity_entry(a));
    assert(entries.len() == v@.len());
    assert(activity_table().len() == ACTIVITY_COUNT);
    assert(entries[i as int] == activity_entry(v@[i as int]));
    v.swap_remove(i)
}

/// An activity drawn at random from the table.
pub fn random_activity() -> (r: Activity)
    ensures
        exists|i: int| 0 <= i < ACTIVITY_COUNT && activity_entry(r) == #[trigger] activity_table()[i],
{
    let i = random_index(ACTIVITY_COUNT);
    activity_at(i)
}

} // verus!
