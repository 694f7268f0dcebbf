use gekraftet_packet::PacketId;

fn every_identifier() -> Vec<(PacketId, u8)> {
    vec![
        (PacketId::KeepAlive, 0x00),
        (PacketId::LoginRequest, 0x01),
        (PacketId::Handshake, 0x02),
        (PacketId::ChatMessage, 0x03),
        (PacketId::TimeUpdate, 0x04),
        (PacketId::EntityEquipment, 0x05),
        (PacketId::SpawnPosition, 0x06),
        (PacketId::UseEntity, 0x07),
        (PacketId::UpdateHealth, 0x08),
        (PacketId::Respawn, 0x09),
        (PacketId::PlayerFlying, 0x0a),
        (PacketId::PlayerPosition, 0x0b),
        (PacketId::PlayerLook, 0x0c),
        (PacketId::PlayerPositionAndLook, 0x0d),
        (PacketId::PlayerDigging, 0x0e),
        (PacketId::PlayerBlockPlacement, 0x0f),
        (PacketId::HoldingChange, 0x10),
        (PacketId::UseBed, 0x11),
        (PacketId::UseAnimation, 0x12),
        (PacketId::EntityAction, 0x13),
        (PacketId::NamedEntitySpawn, 0x14),
        (PacketId::PickupSpawn, 0x15),
        (PacketId::CollectItem, 0x16),
        (PacketId::AddObject, 0x17),
        (PacketId::MobSpawn, 0x18),
        (PacketId::AddPainting, 0x19),
        (PacketId::StanceUpdate, 0x1b),
        (PacketId::EntityVelocity, 0x1c),
        (PacketId::DestroyEntity, 0x1d),
        (PacketId::EntityUnchanged, 0x1e),
        (PacketId::EntityRelativeMove, 0x1f),
        (PacketId::EntityLook, 0x20),
        (PacketId::EntityLookAndRelativeMove, 0x21),
        (PacketId::EntityTeleport, 0x22),
        (PacketId::EntityStatus, 0x26),
        (PacketId::AttachEntity, 0x27),
        (PacketId::EntityMetadata, 0x28),
        (PacketId::PreChunk, 0x32),
        (PacketId::MapChunk, 0x33),
        (PacketId::MultiBlockChange, 0x34),
        (PacketId::BlockChange, 0x35),
        (PacketId::BlockAction, 0x36),
        (PacketId::Explosion, 0x3c),
        (PacketId::SoundEffect, 0x3d),
        (PacketId::NewState, 0x46),
        (PacketId::Thunderbolt, 0x47),
        (PacketId::OpenWindow, 0x64),
        (PacketId::CloseWindow, 0x65),
        (PacketId::WindowClick, 0x66),
        (PacketId::SetSlot, 0x67),
        (PacketId::WindowItems, 0x68),
        (PacketId::UpdateProgressBar, 0x69),
        (PacketId::Transaction, 0x6a),
        (PacketId::UpdateSign, 0x82),
        (PacketId::ItemData, 0x83),
        (PacketId::IncrementStatistic, 0x84),
        (PacketId::DisconnectOrKick, 0xff),
    ]
}

fn in_unassigned_range(b: u8) -> bool {
    b == 0x1a
        || (0x23..=0x25).contains(&b)
        || (0x29..=0x31).contains(&b)
        || (0x37..=0x3b).contains(&b)
        || (0x3e..=0x45).contains(&b)
        || (0x48..=0x63).contains(&b)
        || (0x6b..=0x81).contains(&b)
        || (0x85..=0xfe).contains(&b)
}

#[test]
fn keep_alive_is_zero() {
    assert_eq!(PacketId::KeepAlive.packet_id(), 0x00);
}

#[test]
fn disconnect_is_last_byte() {
    assert_eq!(PacketId::DisconnectOrKick.packet_id(), 0xff);
}

#[test]
fn position_and_look_opcode() {
    assert_eq!(PacketId::PlayerPositionAndLook.packet_id(), 0x0d);
}

#[test]
fn handshake_from_opcode() {
    assert_eq!(PacketId::from_packet_id(0x02), Some(PacketId::Handshake));
}

#[test]
fn first_gap_is_unassigned() {
    assert_eq!(PacketId::from_packet_id(0x1a), None);
}

#[test]
fn upper_gap_is_unassigned() {
    assert_eq!(PacketId::from_packet_id(0x85), None);
    assert_eq!(PacketId::from_packet_id(0xfe), None);
}

#[test]
fn gap_edges() {
    assert_eq!(PacketId::from_packet_id(0x19), Some(PacketId::AddPainting));
    assert_eq!(PacketId::from_packet_id(0x1b), Some(PacketId::StanceUpdate));
    assert_eq!(PacketId::from_packet_id(0x36), Some(PacketId::BlockAction));
    assert_eq!(PacketId::from_packet_id(0x37), None);
    assert_eq!(PacketId::from_packet_id(0x84), Some(PacketId::IncrementStatistic));
    assert_eq!(PacketId::from_packet_id(0xff), Some(PacketId::DisconnectOrKick));
}

#[test]
fn every_opcode_matches_table() {
    for (p, b) in every_identifier() {
        assert_eq!(p.packet_id(), b);
    }
}

#[test]
fn round_trip_for_every_identifier() {
    for (p, _) in every_identifier() {
        assert_eq!(PacketId::from_packet_id(p.packet_id()), Some(p));
    }
}

#[test]
fn distinct_identifiers_distinct_opcodes() {
    let all = every_identifier();
    for (i, (p1, _)) in all.iter().enumerate() {
        for (p2, _) in all.iter().skip(i + 1) {
            assert_ne!(p1, p2);
            assert_ne!(p1.packet_id(), p2.packet_id());
        }
    }
}

#[test]
fn unassigned_opcodes_give_none() {
    let mut assigned = 0;
    for b in 0..=255u8 {
        match PacketId::from_packet_id(b) {
            Some(p) => {
                assert!(!in_unassigned_range(b));
                assert_eq!(p.packet_id(), b);
                assigned += 1;
            }
            None => assert!(in_unassigned_range(b)),
        }
    }
    assert_eq!(assigned, every_identifier().len());
}
