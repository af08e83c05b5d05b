# rubevy

mruby scripts as tasks of one SabiRuby VM, bridged to a Bevy world: a script is a task of
the VM's scheduler, speaks to the game through the `Rubevy` module, and waits on the game's
answers without costing the frame anything.

## Layout

* `src/` — the library, verified with Verus.
  * `request.rs` — `Arg`, `Request`, `Answer`: what a script asks for and what the game
    answers, generic in the number type; the accessors and the law that an argument is read
    one way only.
  * `command.rs` — `HostCommand`, the queue the natives fill (`HostState`), and the routing
    of a frame's commands into requests and `WorldAction`s, with its laws.
  * `host_api.rs` — the `Rubevy` module: the natives, `Rubevy::Entity`, and how their
    arguments are read.
  * `world.rs` — `ScriptWorld`: the VM and the requests waiting for the game; starting,
    running, answering, finishing and stopping scripts.
  * `entity.rs`, `text.rs` — entities as `Entity::to_bits`, and the text the bridge writes.
  * `asset.rs`, `script.rs` — `.mrb` loading, and the components and settings of a game.
  * `vm.rs` — `RubyValue`, the values the bridge reads, and the VM's types and entry
    points, as trusted items with names for what the VM answers back.
* `app/` — the Bevy plugin around the library: Bevy's derives, the asset loader, the three
  systems, the component hook, the VM's clock and file host, and the conversions between the
  VM's numbers and the game's floats.
* `tests/` — the library driven by hand, frame by frame, with real scripts compiled by
  `sabiruby-compiler`.
