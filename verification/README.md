# mango

Building blocks for long-lived agents: automations that run as WebAssembly guests
under a control plane, an event bus for workers, chat surfaces, and bridges to agent
processes.

The library under `src/` is written in Verus. What it decides and computes is stated
in contracts and proved; what it takes from other crates stands behind small wrappers
whose contracts are trusted.

| Module | What it holds |
| --- | --- |
| `automations` | the control plane: its state and transitions, drives, due wakeups, bundles, providers, clocks, simulated time and its settlements, and laws over all of them |
| `automation_control` | activations and their store, and the guest runtime behind them |
| `wasm` | calls into guests, and what a store went through |
| `protocol`, `guest_sdk` | what host and guest tell each other |
| `agent`, `runtime_support`, `inmemory_bus` | the vocabulary of events and workers, identifiers, subscriptions |
| `telegram` | messages, tokens, and what a chat session publishes and sends |
| `bridges` | configurations, commands and lines of agent processes |
| `scenarios` | reports of scenario tests |
| `ordered_map`, `json`, `json_text`, `paths`, `text`, `digest`, `model` | shared parts |

`app/` is ordinary Rust around the library: files, processes, channels and the
network. It performs what the library plans and hands back what happened.
