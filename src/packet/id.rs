use vstd::prelude::*;

verus! {

/// The packets exchanged by server and client in protocol version 14.
///
/// The variants are listed in the order of their opcode, the single byte
/// that leads every packet on the wire. Opcodes that no variant names are
/// unassigned in this protocol version.
#[derive(Clone, Copy, Debug, PartialEq, Eq, Structural)]
pub enum PacketId {
    /* 0x00 */ KeepAlive,
    /* 0x01 */ LoginRequest,
    /* 0x02 */ Handshake,
    /* 0x03 */ ChatMessage,
    /* 0x04 */ TimeUpdate,
    /* 0x05 */ EntityEquipment,
    /* 0x06 */ SpawnPosition,
    /* 0x07 */ UseEntity,
    /* 0x08 */ UpdateHealth,
    /* 0x09 */ Respawn,
    /* 0x0a */ PlayerFlying,
    /* 0x0b */ PlayerPosition,
    /* 0x0c */ PlayerLook,
    /* 0x0d */ PlayerPositionAndLook,
    /* 0x0e */ PlayerDigging,
    /* 0x0f */ PlayerBlockPlacement,
    /* 0x10 */ HoldingChange,
    /* 0x11 */ UseBed,
    /* 0x12 */ UseAnimation,
    /* 0x13 */ EntityAction,
    /* 0x14 */ NamedEntitySpawn,
    /* 0x15 */ PickupSpawn,
    /* 0x16 */ CollectItem,
    /* 0x17 */ AddObject,
    /* 0x18 */ MobSpawn,
    /* 0x19 */ AddPainting,
    // unassigned: 0x1a
    /* 0x1b */ StanceUpdate,
    /* 0x1c */ EntityVelocity,
    /* 0x1d */ DestroyEntity,
    /* 0x1e */ EntityUnchanged,
    /* 0x1f */ EntityRelativeMove,
    /* 0x20 */ EntityLook,
    /* 0x21 */ EntityLookAndRelativeMove,
    /* 0x22 */ EntityTeleport,
    // unassigned: 0x23 to 0x25
    /* 0x26 */ EntityStatus,
    /* 0x27 */ AttachEntity,
    /* 0x28 */ EntityMetadata,
    // unassigned: 0x29 to 0x31
    /* 0x32 */ PreChunk,
    /* 0x33 */ MapChunk,
    /* 0x34 */ MultiBlockChange,
    /* 0x35 */ BlockChange,
    /* 0x36 */ BlockAction,
    // unassigned: 0x37 to 0x3b
    /* 0x3c */ Explosion,
    /* 0x3d */ SoundEffect,
    // unassigned: 0x3e to 0x45
    /* 0x46 */ NewState,
    /* 0x47 */ Thunderbolt,
    // unassigned: 0x48 to 0x63
    /* 0x64 */ OpenWindow,
    /* 0x65 */ CloseWindow,
    /* 0x66 */ WindowClick,
    /* 0x67 */ SetSlot,
    /* 0x68 */ WindowItems,
    /* 0x69 */ UpdateProgressBar,
    /* 0x6a */ Transaction,
    // unassigned: 0x6b to 0x81
    /* 0x82 */ UpdateSign,
    /* 0x83 */ ItemData,
    /* 0x84 */ IncrementStatistic,
    // unassigned: 0x85 to 0xfe
    /* 0xff */ DisconnectOrKick,
}

/// The opcode assigned to each packet identifier.
pub open spec fn opcode_of(p: PacketId) -> u8 {
    match p {
        PacketId::KeepAlive => 0x00,
        PacketId::LoginRequest => 0x01,
        PacketId::Handshake => 0x02,
        PacketId::ChatMessage => 0x03,
        PacketId::TimeUpdate => 0x04,
        PacketId::EntityEquipment => 0x05,
        PacketId::SpawnPosition => 0x06,
        PacketId::UseEntity => 0x07,
        PacketId::UpdateHealth => 0x08,
        PacketId::Respawn => 0x09,
        PacketId::PlayerFlying => 0x0a,
        PacketId::PlayerPosition => 0x0b,
        PacketId::PlayerLook => 0x0c,
        PacketId::PlayerPositionAndLook => 0x0d,
        PacketId::PlayerDigging => 0x0e,
        PacketId::PlayerBlockPlacement => 0x0f,
        PacketId::HoldingChange => 0x10,
        PacketId::UseBed => 0x11,
        PacketId::UseAnimation => 0x12,
        PacketId::EntityAction => 0x13,
        PacketId::NamedEntitySpawn => 0x14,
        PacketId::PickupSpawn => 0x15,
        PacketId::CollectItem => 0x16,
        PacketId::AddObject => 0x17,
        PacketId::MobSpawn => 0x18,
        PacketId::AddPainting => 0x19,
        PacketId::StanceUpdate => 0x1b,
        PacketId::EntityVelocity => 0x1c,
        PacketId::DestroyEntity => 0x1d,
        PacketId::EntityUnchanged => 0x1e,
        PacketId::EntityRelativeMove => 0x1f,
        PacketId::EntityLook => 0x20,
        PacketId::EntityLookAndRelativeMove => 0x21,
        PacketId::EntityTeleport => 0x22,
        PacketId::EntityStatus => 0x26,
        PacketId::AttachEntity => 0x27,
        PacketId::EntityMetadata => 0x28,
        PacketId::PreChunk => 0x32,
        PacketId::MapChunk => 0x33,
        PacketId::MultiBlockChange => 0x34,
        PacketId::BlockChange => 0x35,
        PacketId::BlockAction => 0x36,
        PacketId::Explosion => 0x3c,
        PacketId::SoundEffect => 0x3d,
        PacketId::NewState => 0x46,
        PacketId::Thunderbolt => 0x47,
        PacketId::OpenWindow => 0x64,
        PacketId::CloseWindow => 0x65,
        PacketId::WindowClick => 0x66,
        PacketId::SetSlot => 0x67,
        PacketId::WindowItems => 0x68,
        PacketId::UpdateProgressBar => 0x69,
        PacketId::Transaction => 0x6a,
        PacketId::UpdateSign => 0x82,
        PacketId::ItemData => 0x83,
        PacketId::IncrementStatistic => 0x84,
        PacketId::DisconnectOrKick => 0xff,
    }
}

/// The packet identifier that each opcode names; `None` for an unassigned
/// opcode.
pub open spec fn identifier_of(b: u8) -> Option<PacketId> {
    match b {
        0x00 => Some(PacketId::KeepAlive),
        0x01 => Some(PacketId::LoginRequest),
        0x02 => Some(PacketId::Handshake),
        0x03 => Some(PacketId::ChatMessage),
        0x04 => Some(PacketId::TimeUpdate),
        0x05 => Some(PacketId::EntityEquipment),
        0x06 => Some(PacketId::SpawnPosition),
        0x07 => Some(PacketId::UseEntity),
        0x08 => Some(PacketId::UpdateHealth),
        0x09 => Some(PacketId::Respawn),
        0x0a => Some(PacketId::PlayerFlying),
        0x0b => Some(PacketId::PlayerPosition),
        0x0c => Some(PacketId::PlayerLook),
        0x0d => Some(PacketId::PlayerPositionAndLook),
        0x0e => Some(PacketId::PlayerDigging),
        0x0f => Some(PacketId::PlayerBlockPlacement),
        0x10 => Some(PacketId::HoldingChange),
        0x11 => Some(PacketId::UseBed),
        0x12 => Some(PacketId::UseAnimation),
        0x13 => Some(PacketId::EntityAction),
        0x14 => Some(PacketId::NamedEntitySpawn),
        0x15 => Some(PacketId::PickupSpawn),
        0x16 => Some(PacketId::CollectItem),
        0x17 => Some(PacketId::AddObject),
        0x18 => Some(PacketId::MobSpawn),
        0x19 => Some(PacketId::AddPainting),
        0x1b => Some(PacketId::StanceUpdate),
        0x1c => Some(PacketId::EntityVelocity),
        0x1d => Some(PacketId::DestroyEntity),
        0x1e => Some(PacketId::EntityUnchanged),
        0x1f => Some(PacketId::EntityRelativeMove),
        0x20 => Some(PacketId::EntityLook),
        0x21 => Some(PacketId::EntityLookAndRelativeMove),
        0x22 => Some(PacketId::EntityTeleport),
        0x26 => Some(PacketId::EntityStatus),
        0x27 => Some(PacketId::AttachEntity),
        0x28 => Some(PacketId::EntityMetadata),
        0x32 => Some(PacketId::PreChunk),
        0x33 => Some(PacketId::MapChunk),
        0x34 => Some(PacketId::MultiBlockChange),
        0x35 => Some(PacketId::BlockChange),
        0x36 => Some(PacketId::BlockAction),
        0x3c => Some(PacketId::Explosion),
        0x3d => Some(PacketId::SoundEffect),
        0x46 => Some(PacketId::NewState),
        0x47 => Some(PacketId::Thunderbolt),
        0x64 => Some(PacketId::OpenWindow),
        0x65 => Some(PacketId::CloseWindow),
        0x66 => Some(PacketId::WindowClick),
        0x67 => Some(PacketId::SetSlot),
        0x68 => Some(PacketId::WindowItems),
        0x69 => Some(PacketId::UpdateProgressBar),
        0x6a => Some(PacketId::Transaction),
        0x82 => Some(PacketId::UpdateSign),
        0x83 => Some(PacketId::ItemData),
        0x84 => Some(PacketId::IncrementStatistic),
        0xff => Some(PacketId::DisconnectOrKick),
        _ => None,
    }
}

/// The opcodes that no packet identifier uses in this protocol version.
pub open spec fn is_unassigned(b: u8) -> bool {
    ||| b == 0x1a
    ||| 0x23 <= b <= 0x25
    ||| 0x29 <= b <= 0x31
    ||| 0x37 <= b <= 0x3b
    ||| 0x3e <= b <= 0x45
    ||| 0x48 <= b <= 0x63
    ||| 0x6b <= b <= 0x81
    ||| 0x85 <= b <= 0xfe
}

/// Looking up the opcode of an identifier gives back that identifier.
pub proof fn lemma_round_trip(p: PacketId)
    ensures
        identifier_of(opcode_of(p)) == Some(p),
{
}

/// Whatever identifier an opcode names carries that opcode, and an opcode
/// that names none is the opcode of no identifier.
pub proof fn lemma_identifier_inverse(b: u8)
    ensures
        identifier_of(b) matches Some(p) ==> opcode_of(p) == b,
        identifier_of(b) is None <==> forall|p: PacketId| opcode_of(p) != b,
{
    assert forall|p: PacketId| opcode_of(p) == b implies identifier_of(b) == Some(p) by {
        lemma_round_trip(p);
    }
    if let Some(p) = identifier_of(b) {
        assert(opcode_of(p) == b);
    }
}

/// Distinct packet identifiers have distinct opcodes.
pub proof fn lemma_opcode_injective(p1: PacketId, p2: PacketId)
    requires
        p1 != p2,
    ensures
        opcode_of(p1) != opcode_of(p2),
{
    lemma_round_trip(p1);
    lemma_round_trip(p2);
}

/// An opcode names no identifier exactly when it lies in one of the
/// unassigned ranges.
pub proof fn lemma_unassigned(b: u8)
    ensures
        identifier_of(b) is None <==> is_unassigned(b),
{
}

impl PacketId {
    /// The opcode that leads a packet of this kind on the wire.
    pub fn packet_id(&self) -> (r: u8)
        ensures
            r == opcode_of(*self),
    {
        match self {
            PacketId::KeepAlive => 0x00,
            PacketId::LoginRequest => 0x01,
            PacketId::Handshake => 0x02,
            PacketId::ChatMessage => 0x03,
            PacketId::TimeUpdate => 0x04,
            PacketId::EntityEquipment => 0x05,
            PacketId::SpawnPosition => 0x06,
            PacketId::UseEntity => 0x07,
            PacketId::UpdateHealth => 0x08,
            PacketId::Respawn => 0x09,
            PacketId::PlayerFlying => 0x0a,
            PacketId::PlayerPosition => 0x0b,
            PacketId::PlayerLook => 0x0c,
            PacketId::PlayerPositionAndLook => 0x0d,
            PacketId::PlayerDigging => 0x0e,
            PacketId::PlayerBlockPlacement => 0x0f,
            PacketId::HoldingChange => 0x10,
            PacketId::UseBed => 0x11,
            PacketId::UseAnimation => 0x12,
            PacketId::EntityAction => 0x13,
            PacketId::NamedEntitySpawn => 0x14,
            PacketId::PickupSpawn => 0x15,
            PacketId::CollectItem => 0x16,
            PacketId::AddObject => 0x17,
            PacketId::MobSpawn => 0x18,
            PacketId::AddPainting => 0x19,
            PacketId::StanceUpdate => 0x1b,
            PacketId::EntityVelocity => 0x1c,
            PacketId::DestroyEntity => 0x1d,
            PacketId::EntityUnchanged => 0x1e,
            PacketId::EntityRelativeMove => 0x1f,
            PacketId::EntityLook => 0x20,
            PacketId::EntityLookAndRelativeMove => 0x21,
            PacketId::EntityTeleport => 0x22,
            PacketId::EntityStatus => 0x26,
            PacketId::AttachEntity => 0x27,
            PacketId::EntityMetadata => 0x28,
            PacketId::PreChunk => 0x32,
            PacketId::MapChunk => 0x33,
            PacketId::MultiBlockChange => 0x34,
            PacketId::BlockChange => 0x35,
            PacketId::BlockAction => 0x36,
            PacketId::Explosion => 0x3c,
            PacketId::SoundEffect => 0x3d,
            PacketId::NewState => 0x46,
            PacketId::Thunderbolt => 0x47,
            PacketId::OpenWindow => 0x64,
            PacketId::CloseWindow => 0x65,
            PacketId::WindowClick => 0x66,
            PacketId::SetSlot => 0x67,
            PacketId::WindowItems => 0x68,
            PacketId::UpdateProgressBar => 0x69,
            PacketId::Transaction => 0x6a,
            PacketId::UpdateSign => 0x82,
            PacketId::ItemData => 0x83,
            PacketId::IncrementStatistic => 0x84,
            PacketId::DisconnectOrKick => 0xff,
        }
    }

    /// The packet identifier that opcode `id` names, or `None` where `id` is
    /// unassigned in this protocol version.
    pub fn from_packet_id(id: u8) -> (r: Option<Self>)
        ensures
            r == identifier_of(id),
            r matches Some(p) ==> opcode_of(p) == id,
            r is None <==> forall|p: PacketId| opcode_of(p) != id,
    {
        let r = match id {
            0x00 => Some(PacketId::KeepAlive),
            0x01 => Some(PacketId::LoginRequest),
            0x02 => Some(PacketId::Handshake),
            0x03 => Some(PacketId::ChatMessage),
            0x04 => Some(PacketId::TimeUpdate),
            0x05 => Some(PacketId::EntityEquipment),
            0x06 => Some(PacketId::SpawnPosition),
            0x07 => Some(PacketId::UseEntity),
            0x08 => Some(PacketId::UpdateHealth),
            0x09 => Some(PacketId::Respawn),
            0x0a => Some(PacketId::PlayerFlying),
            0x0b => Some(PacketId::PlayerPosition),
            0x0c => Some(PacketId::PlayerLook),
            0x0d => Some(PacketId::PlayerPositionAndLook),
            0x0e => Some(PacketId::PlayerDigging),
            0x0f => Some(PacketId::PlayerBlockPlacement),
            0x10 => Some(PacketId::HoldingChange),
            0x11 => Some(PacketId::UseBed),
            0x12 => Some(PacketId::UseAnimation),
            0x13 => Some(PacketId::EntityAction),
            0x14 => Some(PacketId::NamedEntitySpawn),
            0x15 => Some(PacketId::PickupSpawn),
            0x16 => Some(PacketId::CollectItem),
            0x17 => Some(PacketId::AddObject),
            0x18 => Some(PacketId::MobSpawn),
            0x19 => Some(PacketId::AddPainting),
            0x1b => Some(PacketId::StanceUpdate),
            0x1c => Some(PacketId::EntityVelocity),
            0x1d => Some(PacketId::DestroyEntity),
            0x1e => Some(PacketId::EntityUnchanged),
            0x1f => Some(PacketId::EntityRelativeMove),
            0x20 => Some(PacketId::EntityLook),
            0x21 => Some(PacketId::EntityLookAndRelativeMove),
            0x22 => Some(PacketId::EntityTeleport),
            0x26 => Some(PacketId::EntityStatus),
            0x27 => Some(PacketId::AttachEntity),
            0x28 => Some(PacketId::EntityMetadata),
            0x32 => Some(PacketId::PreChunk),
            0x33 => Some(PacketId::MapChunk),
            0x34 => Some(PacketId::MultiBlockChange),
            0x35 => Some(PacketId::BlockChange),
            0x36 => Some(PacketId::BlockAction),
            0x3c => Some(PacketId::Explosion),
            0x3d => Some(PacketId::SoundEffect),
            0x46 => Some(PacketId::NewState),
            0x47 => Some(PacketId::Thunderbolt),
            0x64 => Some(PacketId::OpenWindow),
            0x65 => Some(PacketId::CloseWindow),
            0x66 => Some(PacketId::WindowClick),
            0x67 => Some(PacketId::SetSlot),
            0x68 => Some(PacketId::WindowItems),
            0x69 => Some(PacketId::UpdateProgressBar),
            0x6a => Some(PacketId::Transaction),
            0x82 => Some(PacketId::UpdateSign),
            0x83 => Some(PacketId::ItemData),
            0x84 => Some(PacketId::IncrementStatistic),
            0xff => Some(PacketId::DisconnectOrKick),
            _ => None,
        };
        proof {
            lemma_identifier_inverse(id);
        }
        r
    }
}

} // verus!
