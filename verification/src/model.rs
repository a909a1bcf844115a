//! The rows of the registry's older tables, as the registry stores them.

use vstd::prelude::*;

verus! {

/// What a stored user may do.
#[derive(Debug, Clone, Copy, PartialEq, Eq, Structural)]
pub enum UserRole {
    Administrator,
    EquipmentManager,
    General,
}

/// The state of a QR code.
#[derive(Debug, Clone, Copy, PartialEq, Eq, Structural)]
pub enum QRCodeStatus {
    Printed,
    AwaitingPrinting,
    Destroyed,
}

/// A stored user.
#[derive(Debug, Clone)]
pub struct User {
    pub id: String,
    pub created_at: i64,
    pub email: String,
    pub role: UserRole,
}

/// A stored QR code.
#[derive(Debug, Clone)]
pub struct QRCode {
    pub id: String,
    pub created_at: i64,
    pub status: QRCodeStatus,
}

/// A stored kind of equipment.
#[derive(Debug, Clone)]
pub struct Equipment {
    pub id: String,
    pub created_at: i64,
    pub name: String,
}

/// A stored place.
#[derive(Debug, Clone)]
pub struct Place {
    pub id: String,
    pub created_at: i64,
}

/// A stored container.
#[derive(Debug, Clone)]
pub struct Container {
    pub id: String,
    pub created_at: i64,
    pub stored_place_id: String,
}

/// A stored object: one piece of equipment with its QR code, its owner and
/// its place.
#[derive(Debug, Clone)]
pub struct Object {
    pub id: String,
    pub created_at: i64,
    pub equipment_id: String,
    pub qrcode_id: String,
    pub owner_id: String,
    pub parent_object_id: Option<String>,
    pub place_id: String,
    pub note: String,
}

} // verus!
