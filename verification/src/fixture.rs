//! Ready-made surroundings for exercising the reaper: a home, a fleet with a team,
//! the place of a binding, and heartbeats. The binding itself is written by
//! [`crate::document::write_binding`].

use crate::judgment::HeartbeatPair;
use vstd::prelude::*;

verus! {

/// Two hours before `now_ms`, but not before the start of 1970.
pub open spec fn two_hours_back(now_ms: int) -> int {
    if now_ms >= 2 * 3_600_000 {
        now_ms - 2 * 3_600_000
    } else {
        0
    }
}

/// Makes the last heartbeat two hours old, or as old as 1970 allows.
pub fn set_heartbeat_stale_over_1h(pair: &mut HeartbeatPair, now_ms: u64)
    ensures
        final(pair).heartbeat_at_ms == two_hours_back(now_ms as int),
{
    pair.heartbeat_at_ms = now_ms.saturating_sub(2 * 3_600_000);
}

/// Makes the last heartbeat one of this very moment.
pub fn set_heartbeat_fresh(pair: &mut HeartbeatPair, now_ms: u64)
    ensures
        final(pair).heartbeat_at_ms == now_ms,
{
    pair.heartbeat_at_ms = now_ms;
}

/// The text of a fleet file with one team, `ops`, of `member` and `orchestrator`.
pub open spec fn team_text(orchestrator: Seq<char>, member: Seq<char>) -> Seq<char> {
    "teams:\n  ops:\n    members: ["@ + member + ", "@ + orchestrator + "]\n    orchestrator: "@
        + orchestrator + "\n"@
}

/// Writes a fleet file with one team.
pub fn seed_team(orchestrator: &str, member: &str) -> (r: String)
    ensures
        r@ == team_text(orchestrator@, member@),
{
    let mut fleet = String::new();
    fleet.append("teams:\n  ops:\n    members: [");
    fleet.append(member);
    fleet.append(", ");
    fleet.append(orchestrator);
    fleet.append("]\n    orchestrator: ");
    fleet.append(orchestrator);
    fleet.append("\n");
    fleet
}

/// The view of a list of strings.
pub open spec fn texts(parts: Seq<String>) -> Seq<Seq<char>> {
    parts.map_values(|part: String| part@)
}

/// The way from the directory of runtime files to the binding file of `agent`.
pub open spec fn binding_parts(agent: Seq<char>) -> Seq<Seq<char>> {
    seq![agent, "binding.json"@]
}

/// The way from the directory of runtime files to the binding file of `agent`: the
/// parts to join to that directory, one after the other. How a path is joined, and
/// what an absolute part does, is the platform's own.
pub fn binding_path(agent: &str) -> (r: Vec<String>)
    ensures
        texts(r@) == binding_parts(agent@),
{
    let parts = vec![agent.to_owned(), "binding.json".to_owned()];
    assert(texts(parts@) =~= binding_parts(agent@));
    parts
}

/// The decimal digit of value `d`.
pub open spec fn digit_text(d: int) -> Seq<char> {
    seq![('0' as int + d) as char]
}

/// A number in decimal digits.
pub open spec fn decimal_text(n: nat) -> Seq<char>
    decreases n,
{
    if n < 10 {
        digit_text(n as int)
    } else {
        decimal_text(n / 10) + digit_text((n % 10) as int)
    }
}

/// The digit of value `d`.
fn digit(d: u32) -> (r: &'static str)
    requires
        d < 10,
    ensures
        r@ == digit_text(d as int),
{
    proof {
        reveal_strlit("0");
        reveal_strlit("1");
        reveal_strlit("2");
        reveal_strlit("3");
        reveal_strlit("4");
        reveal_strlit("5");
        reveal_strlit("6");
        reveal_strlit("7");
        reveal_strlit("8");
        reveal_strlit("9");
    }
    match d {
        0 => "0",
        1 => "1",
        2 => "2",
        3 => "3",
        4 => "4",
        5 => "5",
        6 => "6",
        7 => "7",
        8 => "8",
        _ => "9",
    }
}

/// Appends `n` in decimal digits.
fn append_decimal(text: &mut String, n: u32)
    ensures
        final(text)@ == old(text)@ + decimal_text(n as nat),
    decreases n,
{
    if n >= 10 {
        append_decimal(text, n / 10);
    }
    text.append(digit(n % 10));
}

/// The name of the home directory of test number `id` of process `pid`.
pub open spec fn home_text(pid: nat, tag: Seq<char>, id: nat) -> Seq<char> {
    "agend-reaper-notify-test-"@ + decimal_text(pid) + "-"@ + tag + "-"@ + decimal_text(id)
}

/// Names a home directory that no other test uses.
pub fn tmp_home(pid: u32, tag: &str, id: u32) -> (r: String)
    ensures
        r@ == home_text(pid as nat, tag@, id as nat),
{
    let mut name = String::new();
    name.append("agend-reaper-notify-test-");
    append_decimal(&mut name, pid);
    name.append("-");
    name.append(tag);
    name.append("-");
    append_decimal(&mut name, id);
    name
}

} // verus!
