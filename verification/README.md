# reaper_notify

At startup the daemon sweeps bindings whose owner looks dead: issued more than a
day ago, last heartbeat more than an hour ago. This crate decides which bindings
those are, in which order a binding is reaped, and what the instance that lost it
and its team's orchestrator are told. It is verified with Verus.

- `src/judgment.rs`: which binding is an orphan
- `src/reaping.rs`: the reaping of one binding, as a step function
- `src/notice.rs`, `src/text.rs`: the notice and its wording
- `src/document.rs`: the fields of `binding.json`
- `src/fixture.rs`: surroundings for exercising the reaper
- `src/laws.rs`: what holds of all of it together
- `app/`: files, inboxes, the fleet and the log around the library
