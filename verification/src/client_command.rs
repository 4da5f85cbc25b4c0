//! What a client's command packet does: how it changes the pose and the
//! shared flags of the client's entity, and which event it raises.
use vstd::prelude::*;
use bevy_ecs::entity::Entity;
use crate::entity::{Pose, SharedFlags, SNEAKING_MASK, SPRINTING_MASK};
pub use crate::packets::{PlayerCommand, PlayerCommandC2s};

verus! {

/// Declares `bevy_ecs::entity::Entity`, the ECS's handle of an entity, as an
/// opaque type: the rules carry it into the events they raise and claim
/// nothing of what it holds.
#[verifier::external_type_specification]
#[verifier::external_body]
pub struct ExEntity(Entity);

/// Whether a client starts or stops sprinting.
#[derive(Clone, Copy, Debug, PartialEq, Eq, Structural)]
pub enum SprintState {
    Start,
    Stop,
}

/// A client started or stopped sprinting.
#[derive(Clone, Copy, Debug, PartialEq, Eq)]
pub struct SprintEvent {
    pub client: Entity,
    pub state: SprintState,
}

/// Whether a client starts or stops sneaking.
#[derive(Clone, Copy, Debug, PartialEq, Eq, Structural)]
pub enum SneakState {
    Start,
    Stop,
}

/// A client started or stopped sneaking.
#[derive(Clone, Copy, Debug, PartialEq, Eq)]
pub struct SneakEvent {
    pub client: Entity,
    pub state: SneakState,
}

/// Whether a client starts a horse jump, and with what power, or stops it.
#[derive(Clone, Copy, Debug, PartialEq, Eq, Structural)]
pub enum JumpWithHorseState {
    Start {
        /// The power of the horse jump in `0..=100`.
        power: u8,
    },
    Stop,
}

/// A client started or stopped a horse jump.
#[derive(Clone, Copy, Debug, PartialEq, Eq)]
pub struct JumpWithHorseEvent {
    pub client: Entity,
    pub state: JumpWithHorseState,
}

/// A client left its bed.
#[derive(Clone, Copy, Debug, PartialEq, Eq)]
pub struct LeaveBedEvent {
    pub client: Entity,
}

/// The event a command raises.
#[derive(Clone, Copy, Debug, PartialEq, Eq)]
pub enum ClientCommandEvent {
    Sprint(SprintEvent),
    Sneak(SneakEvent),
    JumpWithHorse(JumpWithHorseEvent),
    LeaveBed(LeaveBedEvent),
}

/// The pose and the shared flags of a client's entity: the two components
/// a command may change.
#[derive(Clone, Copy, Debug, PartialEq, Eq, Structural)]
pub struct ClientPose {
    pub pose: Pose,
    pub flags: SharedFlags,
}

/// The power of a horse jump started with the given boost: the boost held
/// to `0..=100`.
pub open spec fn jump_power(jump_boost: i32) -> u8 {
    if jump_boost < 0 {
        0
    } else if jump_boost > 100 {
        100
    } else {
        jump_boost as u8
    }
}

/// The power of a horse jump started with the given boost: the boost held
/// to `0..=100`.
pub fn jump_power_of_boost(jump_boost: i32) -> (power: u8)
    ensures
        power == jump_power(jump_boost),
        power <= 100,
        0 <= jump_boost <= 100 ==> power == jump_boost,
        jump_boost < 0 ==> power == 0,
        jump_boost > 100 ==> power == 100,
{
    if jump_boost < 0 {
        0
    } else if jump_boost > 100 {
        100
    } else {
        jump_boost as u8
    }
}

/// How a command changes the pose and flags of the client's entity.
pub open spec fn command_effect(action: PlayerCommand, s: ClientPose) -> ClientPose {
    match action {
        PlayerCommand::StartSneaking => ClientPose {
            pose: Pose::Sneaking,
            flags: SharedFlags(crate::entity::with_bits(s.flags.0, SNEAKING_MASK, true)),
        },
        PlayerCommand::StopSneaking => ClientPose {
            pose: Pose::Standing,
            flags: SharedFlags(crate::entity::with_bits(s.flags.0, SNEAKING_MASK, false)),
        },
        PlayerCommand::StartSprinting => ClientPose {
            pose: s.pose,
            flags: SharedFlags(crate::entity::with_bits(s.flags.0, SPRINTING_MASK, true)),
        },
        PlayerCommand::StopSprinting => ClientPose {
            pose: s.pose,
            flags: SharedFlags(crate::entity::with_bits(s.flags.0, SPRINTING_MASK, false)),
        },
        PlayerCommand::StartFlyingWithElytra => ClientPose { pose: Pose::FallFlying, flags: s.flags },
        _ => s,
    }
}

/// The event a command from `client` raises, if any.
pub open spec fn command_event(client: Entity, action: PlayerCommand, jump_boost: i32) -> Option<
    ClientCommandEvent,
> {
    match action {
        PlayerCommand::StartSneaking => Some(
            ClientCommandEvent::Sneak(SneakEvent { client, state: SneakState::Start }),
        ),
        PlayerCommand::StopSneaking => Some(
            ClientCommandEvent::Sneak(SneakEvent { client, state: SneakState::Stop }),
        ),
        PlayerCommand::LeaveBed => Some(ClientCommandEvent::LeaveBed(LeaveBedEvent { client })),
        PlayerCommand::StartSprinting => Some(
            ClientCommandEvent::Sprint(SprintEvent { client, state: SprintState::Start }),
        ),
        PlayerCommand::StopSprinting => Some(
            ClientCommandEvent::Sprint(SprintEvent { client, state: SprintState::Stop }),
        ),
        PlayerCommand::StartJumpWithHorse => Some(
            ClientCommandEvent::JumpWithHorse(
                JumpWithHorseEvent {
                    client,
                    state: JumpWithHorseState::Start { power: jump_power(jump_boost) },
                },
            ),
        ),
        PlayerCommand::StopJumpWithHorse => Some(
            ClientCommandEvent::JumpWithHorse(
                JumpWithHorseEvent { client, state: JumpWithHorseState::Stop },
            ),
        ),
        PlayerCommand::OpenHorseInventory => None,
        PlayerCommand::StartFlyingWithElytra => None,
    }
}

/// Applies a command to the pose and flags of the client's entity.
pub fn apply_command(action: PlayerCommand, s: &mut ClientPose)
    ensures
        *final(s) == command_effect(action, *old(s)),
{
    match action {
        PlayerCommand::StartSneaking => {
            s.pose = Pose::Sneaking;
            s.flags.set_sneaking(true);
        },
        PlayerCommand::StopSneaking => {
            s.pose = Pose::Standing;
            s.flags.set_sneaking(false);
        },
        PlayerCommand::StartSprinting => {
            s.flags.set_sprinting(true);
        },
        PlayerCommand::StopSprinting => {
            s.flags.set_sprinting(false);
        },
        PlayerCommand::StartFlyingWithElytra => {
            s.pose = Pose::FallFlying;
        },
        _ => {},
    }
}

/// The event a command from `client` raises, if any.
pub fn event_of_command(client: Entity, action: PlayerCommand, jump_boost: i32) -> (e: Option<
    ClientCommandEvent,
>)
    ensures
        e == command_event(client, action, jump_boost),
{
    match action {
        PlayerCommand::StartSneaking => Some(
            ClientCommandEvent::Sneak(SneakEvent { client, state: SneakState::Start }),
        ),
        PlayerCommand::StopSneaking => Some(
            ClientCommandEvent::Sneak(SneakEvent { client, state: SneakState::Stop }),
        ),
        PlayerCommand::LeaveBed => Some(ClientCommandEvent::LeaveBed(LeaveBedEvent { client })),
        PlayerCommand::StartSprinting => Some(
            ClientCommandEvent::Sprint(SprintEvent { client, state: SprintState::Start }),
        ),
        PlayerCommand::StopSprinting => Some(
            ClientCommandEvent::Sprint(SprintEvent { client, state: SprintState::Stop }),
        ),
        PlayerCommand::StartJumpWithHorse => Some(
            ClientCommandEvent::JumpWithHorse(
                JumpWithHorseEvent {
                    client,
                    state: JumpWithHorseState::Start { power: jump_power_of_boost(jump_boost) },
                },
            ),
        ),
        PlayerCommand::StopJumpWithHorse => Some(
            ClientCommandEvent::JumpWithHorse(
                JumpWithHorseEvent { client, state: JumpWithHorseState::Stop },
            ),
        ),
        PlayerCommand::OpenHorseInventory => None,
        PlayerCommand::StartFlyingWithElytra => None,
    }
}

/// The client a raised event names.
pub open spec fn event_client(e: ClientCommandEvent) -> Entity {
    match e {
        ClientCommandEvent::Sprint(ev) => ev.client,
        ClientCommandEvent::Sneak(ev) => ev.client,
        ClientCommandEvent::JumpWithHorse(ev) => ev.client,
        ClientCommandEvent::LeaveBed(ev) => ev.client,
    }
}

/// Which event each command raises: starting and stopping to sneak, to
/// sprint and to jump with a horse raise the matching start and stop
/// events, leaving a bed raises the leave-bed event, and the other two
/// commands raise none.
pub proof fn law_command_event_kinds(client: Entity, jump_boost: i32)
    ensures
        command_event(client, PlayerCommand::StartSneaking, jump_boost) == Some(
            ClientCommandEvent::Sneak(SneakEvent { client, state: SneakState::Start }),
        ),
        command_event(client, PlayerCommand::StopSneaking, jump_boost) == Some(
            ClientCommandEvent::Sneak(SneakEvent { client, state: SneakState::Stop }),
        ),
        command_event(client, PlayerCommand::StartSprinting, jump_boost) == Some(
            ClientCommandEvent::Sprint(SprintEvent { client, state: SprintState::Start }),
        ),
        command_event(client, PlayerCommand::StopSprinting, jump_boost) == Some(
            ClientCommandEvent::Sprint(SprintEvent { client, state: SprintState::Stop }),
        ),
        command_event(client, PlayerCommand::StopJumpWithHorse, jump_boost) == Some(
            ClientCommandEvent::JumpWithHorse(
                JumpWithHorseEvent { client, state: JumpWithHorseState::Stop },
            ),
        ),
        command_event(client, PlayerCommand::LeaveBed, jump_boost) == Some(
            ClientCommandEvent::LeaveBed(LeaveBedEvent { client }),
        ),
        command_event(client, PlayerCommand::OpenHorseInventory, jump_boost) is None,
        command_event(client, PlayerCommand::StartFlyingWithElytra, jump_boost) is None,
{
}

/// Every command raises an event naming the client that sent it, except
/// opening the horse inventory and starting to fly with elytra, which raise
/// none.
pub proof fn law_command_events(client: Entity, action: PlayerCommand, jump_boost: i32)
    ensures
        command_event(client, action, jump_boost) is None <==> (action
            == PlayerCommand::OpenHorseInventory || action
            == PlayerCommand::StartFlyingWithElytra),
        command_event(client, action, jump_boost) matches Some(e) ==> event_client(e) == client,
{
}

/// Every horse jump starts with a power in `0..=100`, and a boost in that
/// range is the power itself; a boost below it gives 0, one above it 100.
pub proof fn law_horse_jump_power(client: Entity, jump_boost: i32)
    ensures
        command_event(client, PlayerCommand::StartJumpWithHorse, jump_boost) == Some(
            ClientCommandEvent::JumpWithHorse(
                JumpWithHorseEvent {
                    client,
                    state: JumpWithHorseState::Start { power: jump_power(jump_boost) },
                },
            ),
        ),
        jump_power(jump_boost) <= 100,
        0 <= jump_boost <= 100 ==> jump_power(jump_boost) == jump_boost,
        jump_boost < 0 ==> jump_power(jump_boost) == 0,
        jump_boost > 100 ==> jump_power(jump_boost) == 100,
{
    assert(0 <= jump_boost <= 100 ==> jump_boost as u8 == jump_boost) by (bit_vector);
}

/// Starting to sneak sets the pose to sneaking and the sneaking bit, and
/// stopping sets the pose to standing and clears the bit; either way no
/// other flag bit changes.
pub proof fn law_sneaking(s: ClientPose)
    ensures
        command_effect(PlayerCommand::StartSneaking, s).pose == Pose::Sneaking,
        command_effect(PlayerCommand::StartSneaking, s).flags.0 & SNEAKING_MASK != 0,
        command_effect(PlayerCommand::StartSneaking, s).flags.0 & !SNEAKING_MASK == s.flags.0
            & !SNEAKING_MASK,
        command_effect(PlayerCommand::StopSneaking, s).pose == Pose::Standing,
        command_effect(PlayerCommand::StopSneaking, s).flags.0 & SNEAKING_MASK == 0,
        command_effect(PlayerCommand::StopSneaking, s).flags.0 & !SNEAKING_MASK == s.flags.0
            & !SNEAKING_MASK,
{
    crate::entity::law_flag_bits(s.flags.0, true);
    crate::entity::law_flag_bits(s.flags.0, false);
}

/// Starting and stopping to sprint set and clear the sprinting bit, leave
/// every other flag bit as it was, and do not change the pose.
pub proof fn law_sprinting(s: ClientPose)
    ensures
        command_effect(PlayerCommand::StartSprinting, s).pose == s.pose,
        command_effect(PlayerCommand::StartSprinting, s).flags.0 & SPRINTING_MASK != 0,
        command_effect(PlayerCommand::StartSprinting, s).flags.0 & !SPRINTING_MASK == s.flags.0
            & !SPRINTING_MASK,
        command_effect(PlayerCommand::StopSprinting, s).pose == s.pose,
        command_effect(PlayerCommand::StopSprinting, s).flags.0 & SPRINTING_MASK == 0,
        command_effect(PlayerCommand::StopSprinting, s).flags.0 & !SPRINTING_MASK == s.flags.0
            & !SPRINTING_MASK,
{
    crate::entity::law_flag_bits(s.flags.0, true);
    crate::entity::law_flag_bits(s.flags.0, false);
}

/// Sneaking and then standing up again leaves the flags as they were
/// before, but with the sneaking bit clear, and the pose standing.
pub proof fn law_sneak_then_stand(s: ClientPose)
    ensures
        ({
            let t = command_effect(
                PlayerCommand::StopSneaking,
                command_effect(PlayerCommand::StartSneaking, s),
            );
            &&& t.pose == Pose::Standing
            &&& t.flags.0 == s.flags.0 & !SNEAKING_MASK
        }),
{
    let f = s.flags.0;
    assert((f | 2i8) & !2i8 == f & !2i8) by (bit_vector);
}

/// Leaving a bed, jumping with a horse and opening the horse inventory do
/// not change the pose or the flags; starting to fly with elytra changes
/// only the pose.
pub proof fn law_commands_without_flags(s: ClientPose)
    ensures
        command_effect(PlayerCommand::LeaveBed, s) == s,
        command_effect(PlayerCommand::StartJumpWithHorse, s) == s,
        command_effect(PlayerCommand::StopJumpWithHorse, s) == s,
        command_effect(PlayerCommand::OpenHorseInventory, s) == s,
        command_effect(PlayerCommand::StartFlyingWithElytra, s) == (ClientPose {
            pose: Pose::FallFlying,
            flags: s.flags,
        }),
{
}

/// Handles one command packet from `client`. `state` holds the pose and the
/// flags of the client's entity when it has both; they are changed as the
/// command says and handed back, and the event the command raises is
/// returned whether or not the entity had them.
pub fn handle_client_command(
    client: Entity,
    packet: &PlayerCommandC2s,
    state: Option<ClientPose>,
) -> (r: (Option<ClientPose>, Option<ClientCommandEvent>))
    ensures
        r.0 == (match state {
            Some(s) => Some(command_effect(packet.action, s)),
            None => None,
        }),
        r.1 == command_event(client, packet.action, packet.jump_boost.0),
{
    let next = match state {
        Some(s) => {
            let mut s = s;
            apply_command(packet.action, &mut s);
            Some(s)
        },
        None => None,
    };
    (next, event_of_command(client, packet.action, packet.jump_boost.0))
}

/// The command packet a body holds, when it decodes and nothing is left
/// over.
pub open spec fn command_packet_of(body: Seq<u8>) -> Option<PlayerCommandC2s> {
    match crate::packets::player_command_at(body, 0) {
        Ok((p, end)) => if end == body.len() {
            Some(p)
        } else {
            None
        },
        Err(_) => None,
    }
}

/// Every command packet, whatever its entity id, command and jump boost and
/// however long their encodings, is recognized from its body: handling the
/// body is handling the packet.
pub proof fn law_command_packet_bodies(p: PlayerCommandC2s)
    ensures
        command_packet_of(crate::packets::player_command_bytes(p)) == Some(p),
{
    let b = crate::packets::player_command_bytes(p);
    crate::packets::law_player_command_roundtrip(p, Seq::empty());
    assert(b + Seq::<u8>::empty() == b);
}

/// Handles the body of a command packet from `client`. A body that does not
/// decode to exactly one command packet is ignored: the state comes back as
/// it was and no event is raised.
pub fn handle_command_packet(client: Entity, body: &[u8], state: Option<ClientPose>) -> (r: (
    Option<ClientPose>,
    Option<ClientCommandEvent>,
))
    ensures
        match command_packet_of(body@) {
            Some(p) => r == (
                match state {
                    Some(s) => Some(command_effect(p.action, s)),
                    None => None,
                },
                command_event(client, p.action, p.jump_boost.0),
            ),
            None => r == (state, None::<ClientCommandEvent>),
        },
{
    match PlayerCommandC2s::decode(body, 0) {
        Ok((packet, end)) => {
            if end == body.len() {
                handle_client_command(client, &packet, state)
            } else {
                (state, None)
            }
        },
        Err(_) => (state, None),
    }
}

} // verus!
