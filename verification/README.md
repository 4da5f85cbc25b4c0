# valence_logic

The rules and wire formats behind a handful of Minecraft server features,
written in Verus and proved against their contracts.

- `src/codec.rs`: the `VarInt` (seven bits per byte, little-endian groups),
  single bytes and big-endian `i32`s, with round-trip and canonical-form laws.
- `src/packets.rs`: the bodies of `MountScreenOpenS2c` and `PlayerCommandC2s`.
- `src/entity.rs`: the entity pose and the byte of shared flags.
- `src/client_command.rs`: how a player's command changes its pose and
  flags, and which event it raises.
- `src/hitbox.rs`: the hitbox shape of each kind of entity. Lengths are whole
  micro-blocks (a millionth of a block), in which every size the rules name is
  exact.
- `src/biome.rs`: biome ids and the hex strings biome colors are written as.

`app/` holds the ECS side: components, messages, plugins and the systems
that call the library each tick, and what is computed with floating point
(positions, yaw, the area-effect cloud's radius, the shulker lid's opening).
