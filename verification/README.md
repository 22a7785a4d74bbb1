# kiro_executor

Runs the Kiro command line agent, as a library that Verus verifies.

- `src/text.rs`: trimming, searching and joining, stated over sequences of characters.
- `src/outside.rs`: the calls into `strip_ansi_escapes` and `shlex`. What is said of them is
  believed, not proved.
- `src/command.rs`: command lines, and what a profile changes of them.
- `src/config.rs`: what a user chooses, and what an agent offers.
- `src/kiro.rs`: the settings of the agent, the plans that start it, its presets and options.
- `src/entries.rs`: conversation entries and patches.
- `src/tools.rs`: the lines by which Kiro reports its tools.
- `src/normalizer.rs`: the machine that turns output into patches.
- `src/conversation.rs`: what holds of every conversation that the machine builds.
- `src/actions.rs`: chains of actions.
- `src/kiro_setup.rs`: the scripts that set the tool up, and the steps of a setup.

`app/` is ordinary Rust around the library: the settings as they are stored, the process that is
started, the tasks that follow its output, and the loop that runs a setup on a deployment. The
services of a deployment are traits there.

The word for the vendor, with which the identifiers and names of all models but `auto` begin, is
left out of this crate: it holds only what follows that word, and `discover_options` takes the word
as an argument.

The category of a shell command and the index of the first new entry come from the host.
