# claude_watch_policy

The decisions of a daemon that watches over a coding session in a terminal pane, verified
with Verus. The daemon reads the session's status once per cycle; the policy says whether the
session is absent, dead, wedged, logged out, stuck in thought or short of context, whether its
watchers run, and what is done about it.

`src/` holds the policy. Every decision is a function of the configuration, the state that the
daemon keeps between cycles, what was seen of the session, and the instant at which the
question is asked. `state.rs` and `config.rs` hold the data; `time.rs` and `text.rs` what all
decisions need; `cycle.rs` the order of the steps; every other module one concern, with its
laws at its end. What a contract says of the state it says of its view, so that what a step
leaves alone is part of the contract.

The clock, RFC 3339 stamps, JSON and the pattern that finds a session id come from `chrono`,
`serde_json` and `regex-lite`, and what white space is from the standard library, each behind a
small function whose contract is believed.

What the session and the daemon are called is a setting like any other; texts, paths and
commands are stated for whatever names are given.

`app/` drives the policy: it reads the environment and the disk, looks at the pane and the
processes through the trait `Host`, asks the policy, and acts. `tests/` runs the library on concrete values.
