use bevy_ecs::entity::Entity;
use valence_logic::client_command::{
    apply_command, event_of_command, handle_client_command, jump_power_of_boost, handle_command_packet, ClientCommandEvent,
    ClientPose, JumpWithHorseEvent, JumpWithHorseState, LeaveBedEvent, PlayerCommand, PlayerCommandC2s,
    SneakEvent, SneakState, SprintEvent, SprintState,
};
use valence_logic::codec::VarInt;
use valence_logic::entity::{Pose, SharedFlags};

fn client() -> Entity {
    Entity::from_raw_u32(7).unwrap()
}

fn packet(action: PlayerCommand, jump_boost: i32) -> PlayerCommandC2s {
    PlayerCommandC2s { entity_id: VarInt(1), action, jump_boost: VarInt(jump_boost) }
}

#[test]
fn shared_flag_bits() {
    let mut f = SharedFlags(0b0100_0001);
    f.set_sneaking(true);
    assert_eq!(f, SharedFlags(0b0100_0011));
    assert!(f.sneaking());
    assert!(!f.sprinting());
    f.set_sprinting(true);
    assert_eq!(f, SharedFlags(0b0100_1011));
    f.set_sneaking(false);
    assert_eq!(f, SharedFlags(0b0100_1001));
    f.set_sprinting(false);
    assert_eq!(f, SharedFlags(0b0100_0001));
    let mut g = SharedFlags(-1);
    g.set_sneaking(false);
    assert_eq!(g, SharedFlags(-3));
}

#[test]
fn start_and_stop_sneaking() {
    let start = ClientPose { pose: Pose::Standing, flags: SharedFlags(0x08) };
    let (next, ev) = handle_client_command(client(), &packet(PlayerCommand::StartSneaking, 0), Some(start));
    let next = next.unwrap();
    assert_eq!(next, ClientPose { pose: Pose::Sneaking, flags: SharedFlags(0x0a) });
    assert_eq!(ev, Some(ClientCommandEvent::Sneak(SneakEvent { client: client(), state: SneakState::Start })));
    let (back, ev) = handle_client_command(client(), &packet(PlayerCommand::StopSneaking, 0), Some(next));
    assert_eq!(back, Some(ClientPose { pose: Pose::Standing, flags: SharedFlags(0x08) }));
    assert_eq!(ev, Some(ClientCommandEvent::Sneak(SneakEvent { client: client(), state: SneakState::Stop })));
}

#[test]
fn sprinting_keeps_the_pose() {
    let mut s = ClientPose { pose: Pose::Swimming, flags: SharedFlags(0x02) };
    apply_command(PlayerCommand::StartSprinting, &mut s);
    assert_eq!(s, ClientPose { pose: Pose::Swimming, flags: SharedFlags(0x0a) });
    apply_command(PlayerCommand::StopSprinting, &mut s);
    assert_eq!(s, ClientPose { pose: Pose::Swimming, flags: SharedFlags(0x02) });
    assert_eq!(
        event_of_command(client(), PlayerCommand::StartSprinting, 0),
        Some(ClientCommandEvent::Sprint(SprintEvent { client: client(), state: SprintState::Start }))
    );
    assert_eq!(
        event_of_command(client(), PlayerCommand::StopSprinting, 0),
        Some(ClientCommandEvent::Sprint(SprintEvent { client: client(), state: SprintState::Stop }))
    );
}

#[test]
fn elytra_changes_only_the_pose_and_raises_nothing() {
    let s = ClientPose { pose: Pose::Standing, flags: SharedFlags(0x0b) };
    let (next, ev) = handle_client_command(client(), &packet(PlayerCommand::StartFlyingWithElytra, 0), Some(s));
    assert_eq!(next, Some(ClientPose { pose: Pose::FallFlying, flags: SharedFlags(0x0b) }));
    assert_eq!(ev, None);
    let (next, ev) = handle_client_command(client(), &packet(PlayerCommand::OpenHorseInventory, 0), Some(s));
    assert_eq!(next, Some(s));
    assert_eq!(ev, None);
}

#[test]
fn horse_jump_power_and_bed() {
    assert_eq!(
        event_of_command(client(), PlayerCommand::StartJumpWithHorse, 77),
        Some(ClientCommandEvent::JumpWithHorse(JumpWithHorseEvent {
            client: client(),
            state: JumpWithHorseState::Start { power: 77 }
        }))
    );
    assert_eq!(
        event_of_command(client(), PlayerCommand::StartJumpWithHorse, 300),
        Some(ClientCommandEvent::JumpWithHorse(JumpWithHorseEvent {
            client: client(),
            state: JumpWithHorseState::Start { power: 100 }
        }))
    );
    assert_eq!(
        event_of_command(client(), PlayerCommand::StartJumpWithHorse, -1),
        Some(ClientCommandEvent::JumpWithHorse(JumpWithHorseEvent {
            client: client(),
            state: JumpWithHorseState::Start { power: 0 }
        }))
    );
    assert_eq!(jump_power_of_boost(0), 0);
    assert_eq!(jump_power_of_boost(100), 100);
    assert_eq!(jump_power_of_boost(101), 100);
    assert_eq!(jump_power_of_boost(150), 100);
    assert_eq!(jump_power_of_boost(i32::MIN), 0);
    assert_eq!(jump_power_of_boost(i32::MAX), 100);
    assert_eq!(
        event_of_command(client(), PlayerCommand::StopJumpWithHorse, 5),
        Some(ClientCommandEvent::JumpWithHorse(JumpWithHorseEvent { client: client(), state: JumpWithHorseState::Stop }))
    );
    assert_eq!(
        event_of_command(client(), PlayerCommand::LeaveBed, 0),
        Some(ClientCommandEvent::LeaveBed(LeaveBedEvent { client: client() }))
    );
    let s = ClientPose { pose: Pose::Sleeping, flags: SharedFlags(0) };
    let (next, _) = handle_client_command(client(), &packet(PlayerCommand::LeaveBed, 0), Some(s));
    assert_eq!(next, Some(s));
}

#[test]
fn event_is_raised_without_components() {
    let (next, ev) = handle_client_command(client(), &packet(PlayerCommand::StartSneaking, 0), None);
    assert_eq!(next, None);
    assert_eq!(ev, Some(ClientCommandEvent::Sneak(SneakEvent { client: client(), state: SneakState::Start })));
}

#[test]
fn packet_bodies() {
    let s = ClientPose { pose: Pose::Standing, flags: SharedFlags(0) };
    let (next, ev) = handle_command_packet(client(), &[1, 3, 0], Some(s));
    assert_eq!(next, Some(ClientPose { pose: Pose::Standing, flags: SharedFlags(0x08) }));
    assert_eq!(ev, Some(ClientCommandEvent::Sprint(SprintEvent { client: client(), state: SprintState::Start })));
    assert_eq!(handle_command_packet(client(), &[1, 3, 0, 0], Some(s)), (Some(s), None));
    assert_eq!(handle_command_packet(client(), &[1, 12, 0], Some(s)), (Some(s), None));
    assert_eq!(handle_command_packet(client(), &[1, 3], None), (None, None));
}
