//! Inventory of tracked items, their lendings, the search mirror and the
//! role-bound credentials that guard changes.
//!
//! The crate holds the rules of the service and a model of the two stores
//! that the service writes to: the registry, a relational store, and the
//! index, a full-text mirror of the registry's items. Items, lendings and
//! credentials are plain values here. An identifier is a UUID, held as the
//! 128-bit number that its sixteen bytes spell; a point in time is the
//! number of microseconds since the first of January 1970, UTC.

pub mod bearer;
pub mod certification;
pub mod claim;
pub mod database;
pub mod email;
pub mod error_handling;
pub mod handler;
pub mod identifier;
pub mod laws;
pub mod model;
pub mod search_engine;
pub mod text;
pub mod use_case;
pub mod user;

use crate::text::{copy_optional_text, optional_text, same_text};
use vstd::prelude::*;

verus! {

/// A text that names no value of the type it was read for.
#[derive(Debug, Clone, PartialEq, Eq)]
pub struct ParseError {
    /// The text that was read.
    pub text: String,
}

/// The colour of the QR code that an item carries.
#[derive(Debug, Clone, Copy, PartialEq, Eq, Structural)]
pub enum QrColor {
    Red,
    Orange,
    Brown,
    LightBlue,
    Blue,
    Green,
    Yellow,
    Purple,
    Pink,
}

impl QrColor {
    /// The name under which the colour is stored.
    pub open spec fn text(self) -> Seq<char> {
        match self {
            QrColor::Red => "red"@,
            QrColor::Orange => "orange"@,
            QrColor::Brown => "brown"@,
            QrColor::LightBlue => "light_blue"@,
            QrColor::Blue => "blue"@,
            QrColor::Green => "green"@,
            QrColor::Yellow => "yellow"@,
            QrColor::Purple => "purple"@,
            QrColor::Pink => "pink"@,
        }
    }

    /// The colour that `s` names, if it names one.
    pub open spec fn named(s: Seq<char>) -> Option<QrColor> {
        if s == "red"@ {
            Some(QrColor::Red)
        } else if s == "orange"@ {
            Some(QrColor::Orange)
        } else if s == "brown"@ {
            Some(QrColor::Brown)
        } else if s == "light_blue"@ {
            Some(QrColor::LightBlue)
        } else if s == "blue"@ {
            Some(QrColor::Blue)
        } else if s == "green"@ {
            Some(QrColor::Green)
        } else if s == "yellow"@ {
            Some(QrColor::Yellow)
        } else if s == "purple"@ {
            Some(QrColor::Purple)
        } else if s == "pink"@ {
            Some(QrColor::Pink)
        } else {
            None
        }
    }

    /// The name under which the colour is stored.
    pub fn to_string(&self) -> (s: String)
        ensures
            s@ == self.text(),
    {
        match self {
            QrColor::Red => "red".to_owned(),
            QrColor::Orange => "orange".to_owned(),
            QrColor::Brown => "brown".to_owned(),
            QrColor::LightBlue => "light_blue".to_owned(),
            QrColor::Blue => "blue".to_owned(),
            QrColor::Green => "green".to_owned(),
            QrColor::Yellow => "yellow".to_owned(),
            QrColor::Purple => "purple".to_owned(),
            QrColor::Pink => "pink".to_owned(),
        }
    }

    /// Reads a colour from its name.
    pub fn parse(s: &str) -> (res: Result<QrColor, ParseError>)
        ensures
            match res {
                Ok(color) => QrColor::named(s@) == Some(color),
                Err(e) => QrColor::named(s@) is None && e.text@ == s@,
            },
    {
        if same_text(s, "red") {
            Ok(QrColor::Red)
        } else if same_text(s, "orange") {
            Ok(QrColor::Orange)
        } else if same_text(s, "brown") {
            Ok(QrColor::Brown)
        } else if same_text(s, "light_blue") {
            Ok(QrColor::LightBlue)
        } else if same_text(s, "blue") {
            Ok(QrColor::Blue)
        } else if same_text(s, "green") {
            Ok(QrColor::Green)
        } else if same_text(s, "yellow") {
            Ok(QrColor::Yellow)
        } else if same_text(s, "purple") {
            Ok(QrColor::Purple)
        } else if same_text(s, "pink") {
            Ok(QrColor::Pink)
        } else {
            Err(ParseError { text: s.to_owned() })
        }
    }

    /// A colour's name names that colour.
    pub proof fn name_reads_back(self)
        ensures
            QrColor::named(self.text()) == Some(self),
    {
        reveal_strlit("red");
        reveal_strlit("orange");
        reveal_strlit("brown");
        reveal_strlit("light_blue");
        reveal_strlit("blue");
        reveal_strlit("green");
        reveal_strlit("yellow");
        reveal_strlit("purple");
        reveal_strlit("pink");
        assert("red"@.len() == 3 && "orange"@.len() == 6 && "brown"@.len() == 5);
        assert("light_blue"@.len() == 10 && "blue"@.len() == 4 && "green"@.len() == 5);
        assert("yellow"@.len() == 6 && "purple"@.len() == 6 && "pink"@.len() == 4);
        assert("orange"@[0] == 'o' && "yellow"@[0] == 'y' && "purple"@[0] == 'p');
        assert("brown"@[0] == 'b' && "green"@[0] == 'g');
        assert("blue"@[0] == 'b' && "pink"@[0] == 'p');
    }
}

/// The room in which an item is kept.
#[derive(Debug, Clone, Copy, PartialEq, Eq, Structural)]
pub enum Stroge {
    /// Room 101.
    Room101,
    /// Room 102.
    Room102,
    /// Room 206.
    Room206,
}

impl Stroge {
    /// The name under which the room is stored.
    pub open spec fn text(self) -> Seq<char> {
        match self {
            Stroge::Room101 => "room101"@,
            Stroge::Room102 => "room102"@,
            Stroge::Room206 => "room206"@,
        }
    }

    /// The room that `s` names, if it names one.
    pub open spec fn named(s: Seq<char>) -> Option<Stroge> {
        if s == "room101"@ {
            Some(Stroge::Room101)
        } else if s == "room102"@ {
            Some(Stroge::Room102)
        } else if s == "room206"@ {
            Some(Stroge::Room206)
        } else {
            None
        }
    }

    /// The name under which the room is stored.
    pub fn to_string(&self) -> (s: String)
        ensures
            s@ == self.text(),
    {
        match self {
            Stroge::Room101 => "room101".to_owned(),
            Stroge::Room102 => "room102".to_owned(),
            Stroge::Room206 => "room206".to_owned(),
        }
    }

    /// Reads a room from its name.
    pub fn parse(s: &str) -> (res: Result<Stroge, ParseError>)
        ensures
            match res {
                Ok(room) => Stroge::named(s@) == Some(room),
                Err(e) => Stroge::named(s@) is None && e.text@ == s@,
            },
    {
        if same_text(s, "room101") {
            Ok(Stroge::Room101)
        } else if same_text(s, "room102") {
            Ok(Stroge::Room102)
        } else if same_text(s, "room206") {
            Ok(Stroge::Room206)
        } else {
            Err(ParseError { text: s.to_owned() })
        }
    }

    /// A room's name names that room.
    pub proof fn name_reads_back(self)
        ensures
            Stroge::named(self.text()) == Some(self),
    {
        reveal_strlit("room101");
        reveal_strlit("room102");
        reveal_strlit("room206");
        assert("room101"@[6] == '1' && "room102"@[6] == '2' && "room206"@[6] == '6');
    }
}

/// The part of the campus in which a spot lies.
#[derive(Debug, Clone, Copy, PartialEq, Eq, Structural)]
pub enum Area {
    /// The first area.
    Area1,
    /// The second area.
    Area2,
    /// The third area.
    Area3,
    /// The central library.
    CenterLibrary,
    /// The stone plaza.
    IshiSquare,
    /// The medical area.
    Igaku,
    /// The area of physical education and arts.
    Taigei,
    /// The Kasuga area.
    Kasuga,
    /// Ichinoya.
    Ichinoya,
    /// Hirasuna.
    Hirasuna,
    /// Oikoshi.
    Oikoshi,
}

impl Area {
    /// The name under which the area is stored.
    pub open spec fn text(self) -> Seq<char> {
        match self {
            Area::Area1 => "area1"@,
            Area::Area2 => "area2"@,
            Area::Area3 => "area3"@,
            Area::CenterLibrary => "center_library"@,
            Area::IshiSquare => "ishi_square"@,
            Area::Igaku => "igaku"@,
            Area::Taigei => "taigei"@,
            Area::Kasuga => "kasuga"@,
            Area::Ichinoya => "ichinoya"@,
            Area::Hirasuna => "hirasuna"@,
            Area::Oikoshi => "oikoshi"@,
        }
    }

    /// The area that `s` is read as, if it is read as one. The name
    /// `kasuga` is read as `Taigei`, and `Oikoshi` is read from `okioshi`.
    pub open spec fn named(s: Seq<char>) -> Option<Area> {
        if s == "area1"@ {
            Some(Area::Area1)
        } else if s == "area2"@ {
            Some(Area::Area2)
        } else if s == "area3"@ {
            Some(Area::Area3)
        } else if s == "center_library"@ {
            Some(Area::CenterLibrary)
        } else if s == "ishi_square"@ {
            Some(Area::IshiSquare)
        } else if s == "igaku"@ {
            Some(Area::Igaku)
        } else if s == "taigei"@ {
            Some(Area::Taigei)
        } else if s == "kasuga"@ {
            Some(Area::Taigei)
        } else if s == "ichinoya"@ {
            Some(Area::Ichinoya)
        } else if s == "hirasuna"@ {
            Some(Area::Hirasuna)
        } else if s == "okioshi"@ {
            Some(Area::Oikoshi)
        } else {
            None
        }
    }

    /// The name under which the area is stored.
    pub fn to_string(&self) -> (s: String)
        ensures
            s@ == self.text(),
    {
        match self {
            Area::Area1 => "area1".to_owned(),
            Area::Area2 => "area2".to_owned(),
            Area::Area3 => "area3".to_owned(),
            Area::CenterLibrary => "center_library".to_owned(),
            Area::IshiSquare => "ishi_square".to_owned(),
            Area::Igaku => "igaku".to_owned(),
            Area::Taigei => "taigei".to_owned(),
            Area::Kasuga => "kasuga".to_owned(),
            Area::Ichinoya => "ichinoya".to_owned(),
            Area::Hirasuna => "hirasuna".to_owned(),
            Area::Oikoshi => "oikoshi".to_owned(),
        }
    }

    /// Reads an area from a name.
    pub fn parse(s: &str) -> (res: Result<Area, ParseError>)
        ensures
            match res {
                Ok(area) => Area::named(s@) == Some(area),
                Err(e) => Area::named(s@) is None && e.text@ == s@,
            },
    {
        if same_text(s, "area1") {
            Ok(Area::Area1)
        } else if same_text(s, "area2") {
            Ok(Area::Area2)
        } else if same_text(s, "area3") {
            Ok(Area::Area3)
        } else if same_text(s, "center_library") {
            Ok(Area::CenterLibrary)
        } else if same_text(s, "ishi_square") {
            Ok(Area::IshiSquare)
        } else if same_text(s, "igaku") {
            Ok(Area::Igaku)
        } else if same_text(s, "taigei") {
            Ok(Area::Taigei)
        } else if same_text(s, "kasuga") {
            Ok(Area::Taigei)
        } else if same_text(s, "ichinoya") {
            Ok(Area::Ichinoya)
        } else if same_text(s, "hirasuna") {
            Ok(Area::Hirasuna)
        } else if same_text(s, "okioshi") {
            Ok(Area::Oikoshi)
        } else {
            Err(ParseError { text: s.to_owned() })
        }
    }
}

/// An item of the inventory.
#[derive(Debug, PartialEq, Eq)]
pub struct Fixtures {
    /// The item's identifier, which it keeps for life.
    pub id: u128,
    /// When the item was entered.
    pub created_at: i64,
    /// The QR code that the item carries now. An item may get another.
    pub qr_id: String,
    /// The colour of that QR code.
    pub qr_color: QrColor,
    /// The item's name.
    pub name: String,
    /// What the item is.
    pub description: Option<String>,
    /// The maker's model number.
    pub model_number: Option<String>,
    /// Where the item is kept.
    pub storage: Stroge,
    /// What the item is used for.
    pub usage: Option<String>,
    /// When in the year the item is used.
    pub usage_season: Option<String>,
    /// Remarks.
    pub note: String,
    /// The identifier of the item that holds this one.
    pub parent_id: String,
}

/// What an item holds, its texts by their characters.
pub struct FixturesView {
    pub id: u128,
    pub created_at: i64,
    pub qr_id: Seq<char>,
    pub qr_color: QrColor,
    pub name: Seq<char>,
    pub description: Option<Seq<char>>,
    pub model_number: Option<Seq<char>>,
    pub storage: Stroge,
    pub usage: Option<Seq<char>>,
    pub usage_season: Option<Seq<char>>,
    pub note: Seq<char>,
    pub parent_id: Seq<char>,
}

impl View for Fixtures {
    type V = FixturesView;

    open spec fn view(&self) -> FixturesView {
        FixturesView {
            id: self.id,
            created_at: self.created_at,
            qr_id: self.qr_id@,
            qr_color: self.qr_color,
            name: self.name@,
            description: optional_text(self.description),
            model_number: optional_text(self.model_number),
            storage: self.storage,
            usage: optional_text(self.usage),
            usage_season: optional_text(self.usage_season),
            note: self.note@,
            parent_id: self.parent_id@,
        }
    }
}

impl Clone for Fixtures {
    fn clone(&self) -> (copy: Self)
        ensures
            copy@ == self@,
    {
        Fixtures {
            id: self.id,
            created_at: self.created_at,
            qr_id: self.qr_id.clone(),
            qr_color: self.qr_color,
            name: self.name.clone(),
            description: copy_optional_text(&self.description),
            model_number: copy_optional_text(&self.model_number),
            storage: self.storage,
            usage: copy_optional_text(&self.usage),
            usage_season: copy_optional_text(&self.usage_season),
            note: self.note.clone(),
            parent_id: self.parent_id.clone(),
        }
    }
}

/// A place to which lent items are taken.
#[derive(Debug, PartialEq, Eq)]
pub struct Spot {
    /// The name by which people know the place. No two spots share one.
    pub name: String,
    /// The part of the campus.
    pub area: Area,
    /// The building, where the place is in one.
    pub building: Option<String>,
    /// The floor, where the place is in a building.
    pub floor: Option<i32>,
    /// The room's number or name.
    pub room: Option<String>,
    /// Remarks.
    pub note: Option<String>,
}

/// What a spot holds, its texts by their characters.
pub struct SpotView {
    pub name: Seq<char>,
    pub area: Area,
    pub building: Option<Seq<char>>,
    pub floor: Option<i32>,
    pub room: Option<Seq<char>>,
    pub note: Option<Seq<char>>,
}

impl View for Spot {
    type V = SpotView;

    open spec fn view(&self) -> SpotView {
        SpotView {
            name: self.name@,
            area: self.area,
            building: optional_text(self.building),
            floor: self.floor,
            room: optional_text(self.room),
            note: optional_text(self.note),
        }
    }
}

impl Clone for Spot {
    fn clone(&self) -> (copy: Self)
        ensures
            copy@ == self@,
    {
        Spot {
            name: self.name.clone(),
            area: self.area,
            building: copy_optional_text(&self.building),
            floor: self.floor,
            room: copy_optional_text(&self.room),
            note: copy_optional_text(&self.note),
        }
    }
}

/// One lending of an item: open until the item comes back.
#[derive(Debug, PartialEq, Eq)]
pub struct Lending {
    /// The lending's identifier.
    pub id: u128,
    /// The identifier of the item lent.
    pub fixtures_id: u128,
    /// The QR code that the item carried when it was lent.
    pub fixtures_qr_id: String,
    /// The name of the spot to which the item was taken.
    pub spot_name: String,
    /// When the item was lent.
    pub lending_at: i64,
    /// When the item came back; `None` while it is out.
    pub returned_at: Option<i64>,
    /// The borrower's name.
    pub borrower_name: String,
    /// The borrower's student number.
    pub borrower_number: i32,
    /// The borrower's organisation.
    pub borrower_org: Option<String>,
}

/// What a lending holds, its texts by their characters.
pub struct LendingView {
    pub id: u128,
    pub fixtures_id: u128,
    pub fixtures_qr_id: Seq<char>,
    pub spot_name: Seq<char>,
    pub lending_at: i64,
    pub returned_at: Option<i64>,
    pub borrower_name: Seq<char>,
    pub borrower_number: i32,
    pub borrower_org: Option<Seq<char>>,
}

impl LendingView {
    /// Whether the item is still out.
    pub open spec fn is_open(self) -> bool {
        self.returned_at is None
    }
}

impl View for Lending {
    type V = LendingView;

    open spec fn view(&self) -> LendingView {
        LendingView {
            id: self.id,
            fixtures_id: self.fixtures_id,
            fixtures_qr_id: self.fixtures_qr_id@,
            spot_name: self.spot_name@,
            lending_at: self.lending_at,
            returned_at: self.returned_at,
            borrower_name: self.borrower_name@,
            borrower_number: self.borrower_number,
            borrower_org: optional_text(self.borrower_org),
        }
    }
}

impl Clone for Lending {
    fn clone(&self) -> (copy: Self)
        ensures
            copy@ == self@,
    {
        Lending {
            id: self.id,
            fixtures_id: self.fixtures_id,
            fixtures_qr_id: self.fixtures_qr_id.clone(),
            spot_name: self.spot_name.clone(),
            lending_at: self.lending_at,
            returned_at: self.returned_at,
            borrower_name: self.borrower_name.clone(),
            borrower_number: self.borrower_number,
            borrower_org: copy_optional_text(&self.borrower_org),
        }
    }
}

/// A container in which items are kept.
#[derive(Debug, PartialEq, Eq)]
pub struct Container {
    /// The container's identifier.
    pub id: u128,
    /// The QR code that the container carries.
    pub qr_id: String,
    /// The colour of that QR code.
    pub qr_color: QrColor,
    /// The room in which the container stands.
    pub storage: Stroge,
    /// What the container looks like and what it is for.
    pub description: String,
}

/// What a container holds, its texts by their characters.
pub struct ContainerView {
    pub id: u128,
    pub qr_id: Seq<char>,
    pub qr_color: QrColor,
    pub storage: Stroge,
    pub description: Seq<char>,
}

impl View for Container {
    type V = ContainerView;

    open spec fn view(&self) -> ContainerView {
        ContainerView {
            id: self.id,
            qr_id: self.qr_id@,
            qr_color: self.qr_color,
            storage: self.storage,
            description: self.description@,
        }
    }
}

impl Clone for Container {
    fn clone(&self) -> (copy: Self)
        ensures
            copy@ == self@,
    {
        Container {
            id: self.id,
            qr_id: self.qr_id.clone(),
            qr_color: self.qr_color,
            storage: self.storage,
            description: self.description.clone(),
        }
    }
}

} // verus!
