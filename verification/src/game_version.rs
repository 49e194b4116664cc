//! Which game a service id belongs to. The service id carried by a ticket
//! has the shape `XXnnnn-TTTTnnnnn_00`: two uppercase letters, four digits, a
//! hyphen, then a nine-character title id (four uppercase letters and five
//! digits), then `_00`. The title id is looked up in the per-game tables.

use vstd::prelude::*;

use vstd::string::StringSliceAdditionalSpecFns;
use vstd::utf8::encode_utf8;

use crate::strutil::bytes_eq;

verus! {

/// A recognised game version.
#[derive(Debug, Clone, Copy, PartialEq, Eq, Structural)]
pub enum GameVersion {
    Lbp1,
    Lbp2,
    Lbp3,
}

/// Why a service id was rejected.
#[derive(Debug, Clone, Copy, PartialEq, Eq, Structural)]
pub enum GameVersionError {
    /// The service id does not have the `XXnnnn-TTTTnnnnn_00` shape.
    InvalidFormat,
    /// The shape is right but the title id is in no game's table.
    UnknownTitleId,
}

pub open spec fn spec_is_upper(b: u8) -> bool {
    65 <= b <= 90
}

pub open spec fn spec_is_ascii_digit(b: u8) -> bool {
    48 <= b <= 57
}

/// The `XXnnnn-TTTTnnnnn_00` shape: byte 6 is the hyphen, byte 16 the
/// underscore, bytes 17 and 18 the literal zeros.
pub open spec fn spec_service_id_shape(s: Seq<u8>) -> bool {
    &&& s.len() == 19
    &&& spec_is_upper(s[0])
    &&& spec_is_upper(s[1])
    &&& spec_is_ascii_digit(s[2])
    &&& spec_is_ascii_digit(s[3])
    &&& spec_is_ascii_digit(s[4])
    &&& spec_is_ascii_digit(s[5])
    &&& s[6] == 45
    &&& spec_is_upper(s[7])
    &&& spec_is_upper(s[8])
    &&& spec_is_upper(s[9])
    &&& spec_is_upper(s[10])
    &&& spec_is_ascii_digit(s[11])
    &&& spec_is_ascii_digit(s[12])
    &&& spec_is_ascii_digit(s[13])
    &&& spec_is_ascii_digit(s[14])
    &&& spec_is_ascii_digit(s[15])
    &&& s[16] == 95
    &&& s[17] == 48
    &&& s[18] == 48
}

/// The title id inside a well-shaped service id.
pub open spec fn spec_title_id(s: Seq<u8>) -> Seq<u8> {
    s.subrange(7, 16)
}

pub open spec fn spec_is_lbp1_title(t: Seq<u8>) -> bool {
    ||| t == "BCES00141".spec_bytes()
    ||| t == "BCAS20091".spec_bytes()
    ||| t == "BCUS98208".spec_bytes()
    ||| t == "BCAS20078".spec_bytes()
    ||| t == "BCJS70009".spec_bytes()
    ||| t == "BCES00611".spec_bytes()
    ||| t == "BCUS98148".spec_bytes()
    ||| t == "BCAS20058".spec_bytes()
    ||| t == "BCJS30018".spec_bytes()
    ||| t == "BCUS98199".spec_bytes()
    ||| t == "BCJB95003".spec_bytes()
    ||| t == "NPEA00241".spec_bytes()
    ||| t == "NPUA98208".spec_bytes()
    ||| t == "NPHA80092".spec_bytes()
    ||| t == "BCKS10059".spec_bytes()
    ||| t == "BCKS10088".spec_bytes()
    ||| t == "BCUS70030".spec_bytes()
    ||| t == "NPJA00052".spec_bytes()
    ||| t == "NPUA80472".spec_bytes()
    ||| t == "BCET70011".spec_bytes()
    ||| t == "NPUA70045".spec_bytes()
    ||| t == "NPEA00147".spec_bytes()
    ||| t == "BCET70002".spec_bytes()
    ||| t == "NPHA80067".spec_bytes()
    ||| t == "NPJA90074".spec_bytes()
    ||| t == "NPEA00243".spec_bytes()
    ||| t == "NPUA80479".spec_bytes()
    ||| t == "NPHA80093".spec_bytes()
    ||| t == "NPJA00058".spec_bytes()
}

pub open spec fn spec_is_lbp2_title(t: Seq<u8>) -> bool {
    ||| t == "BCUS98249".spec_bytes()
    ||| t == "BCES01086".spec_bytes()
    ||| t == "BCAS20113".spec_bytes()
    ||| t == "BCJS70024".spec_bytes()
    ||| t == "BCAS20201".spec_bytes()
    ||| t == "BCUS98245".spec_bytes()
    ||| t == "BCES01345".spec_bytes()
    ||| t == "BCJS30058".spec_bytes()
    ||| t == "BCUS98372".spec_bytes()
    ||| t == "BCES00850".spec_bytes()
    ||| t == "BCES01346".spec_bytes()
    ||| t == "BCUS90260".spec_bytes()
    ||| t == "BCES01694".spec_bytes()
    ||| t == "NPUA80662".spec_bytes()
    ||| t == "NPEA00324".spec_bytes()
    ||| t == "NPEA00437".spec_bytes()
    ||| t == "BCES01693".spec_bytes()
    ||| t == "BCKS10150".spec_bytes()
    ||| t == "NPUA70117".spec_bytes()
    ||| t == "BCET70023".spec_bytes()
    ||| t == "BCET70035".spec_bytes()
    ||| t == "NPEA90077".spec_bytes()
    ||| t == "NPEA90098".spec_bytes()
    ||| t == "NPHA80113".spec_bytes()
    ||| t == "NPHA80125".spec_bytes()
    ||| t == "NPJA90152".spec_bytes()
    ||| t == "NPUA70127".spec_bytes()
    ||| t == "NPUA70169".spec_bytes()
    ||| t == "NPUA70174".spec_bytes()
    ||| t == "BCET70055".spec_bytes()
    ||| t == "NPEA00449".spec_bytes()
    ||| t == "NPHA80261".spec_bytes()
    ||| t == "NPUA80967".spec_bytes()
}

pub open spec fn spec_is_lbp3_title(t: Seq<u8>) -> bool {
    ||| t == "BCES02068".spec_bytes()
    ||| t == "BCAS20322".spec_bytes()
    ||| t == "BCJS30095".spec_bytes()
    ||| t == "BCUS98362".spec_bytes()
    ||| t == "NPUA81116".spec_bytes()
    ||| t == "NPEA00515".spec_bytes()
    ||| t == "BCUS81138".spec_bytes()
    ||| t == "NPJA00123".spec_bytes()
    ||| t == "NPHO00189".spec_bytes()
    ||| t == "NPHA80277".spec_bytes()
    ||| t == "NPEA90128".spec_bytes()
    ||| t == "NPUA81174".spec_bytes()
    ||| t == "BCES01663".spec_bytes()
    ||| t == "CUSA00693".spec_bytes()
    ||| t == "CUSA00810".spec_bytes()
    ||| t == "CUSA00738".spec_bytes()
    ||| t == "PCJS50003".spec_bytes()
    ||| t == "CUSA00063".spec_bytes()
    ||| t == "PCKS90007".spec_bytes()
    ||| t == "PCAS00012".spec_bytes()
    ||| t == "CUSA00601".spec_bytes()
    ||| t == "CUSA00762".spec_bytes()
    ||| t == "PCAS20007".spec_bytes()
    ||| t == "CUSA00473".spec_bytes()
    ||| t == "CUSA01072".spec_bytes()
    ||| t == "CUSA01077".spec_bytes()
    ||| t == "CUSA01304".spec_bytes()
}

fn is_lbp1_title(t: &[u8]) -> (r: bool)
    ensures
        r == spec_is_lbp1_title(t@),
{
    bytes_eq(t, "BCES00141".as_bytes()) || bytes_eq(t, "BCAS20091".as_bytes()) || bytes_eq(t, "BCUS98208".as_bytes()) || bytes_eq(t, "BCAS20078".as_bytes()) || bytes_eq(t, "BCJS70009".as_bytes()) || bytes_eq(t, "BCES00611".as_bytes()) || bytes_eq(t, "BCUS98148".as_bytes()) || bytes_eq(t, "BCAS20058".as_bytes()) || bytes_eq(t, "BCJS30018".as_bytes()) || bytes_eq(t, "BCUS98199".as_bytes()) || bytes_eq(t, "BCJB95003".as_bytes()) || bytes_eq(t, "NPEA00241".as_bytes()) || bytes_eq(t, "NPUA98208".as_bytes()) || bytes_eq(t, "NPHA80092".as_bytes()) || bytes_eq(t, "BCKS10059".as_bytes()) || bytes_eq(t, "BCKS10088".as_bytes()) || bytes_eq(t, "BCUS70030".as_bytes()) || bytes_eq(t, "NPJA00052".as_bytes()) || bytes_eq(t, "NPUA80472".as_bytes()) || bytes_eq(t, "BCET70011".as_bytes()) || bytes_eq(t, "NPUA70045".as_bytes()) || bytes_eq(t, "NPEA00147".as_bytes()) || bytes_eq(t, "BCET70002".as_bytes()) || bytes_eq(t, "NPHA80067".as_bytes()) || bytes_eq(t, "NPJA90074".as_bytes()) || bytes_eq(t, "NPEA00243".as_bytes()) || bytes_eq(t, "NPUA80479".as_bytes()) || bytes_eq(t, "NPHA80093".as_bytes()) || bytes_eq(t, "NPJA00058".as_bytes())
}

fn is_lbp2_title(t: &[u8]) -> (r: bool)
    ensures
        r == spec_is_lbp2_title(t@),
{
    bytes_eq(t, "BCUS98249".as_bytes()) || bytes_eq(t, "BCES01086".as_bytes()) || bytes_eq(t, "BCAS20113".as_bytes()) || bytes_eq(t, "BCJS70024".as_bytes()) || bytes_eq(t, "BCAS20201".as_bytes()) || bytes_eq(t, "BCUS98245".as_bytes()) || bytes_eq(t, "BCES01345".as_bytes()) || bytes_eq(t, "BCJS30058".as_bytes()) || bytes_eq(t, "BCUS98372".as_bytes()) || bytes_eq(t, "BCES00850".as_bytes()) || bytes_eq(t, "BCES01346".as_bytes()) || bytes_eq(t, "BCUS90260".as_bytes()) || bytes_eq(t, "BCES01694".as_bytes()) || bytes_eq(t, "NPUA80662".as_bytes()) || bytes_eq(t, "NPEA00324".as_bytes()) || bytes_eq(t, "NPEA00437".as_bytes()) || bytes_eq(t, "BCES01693".as_bytes()) || bytes_eq(t, "BCKS10150".as_bytes()) || bytes_eq(t, "NPUA70117".as_bytes()) || bytes_eq(t, "BCET70023".as_bytes()) || bytes_eq(t, "BCET70035".as_bytes()) || bytes_eq(t, "NPEA90077".as_bytes()) || bytes_eq(t, "NPEA90098".as_bytes()) || bytes_eq(t, "NPHA80113".as_bytes()) || bytes_eq(t, "NPHA80125".as_bytes()) || bytes_eq(t, "NPJA90152".as_bytes()) || bytes_eq(t, "NPUA70127".as_bytes()) || bytes_eq(t, "NPUA70169".as_bytes()) || bytes_eq(t, "NPUA70174".as_bytes()) || bytes_eq(t, "BCET70055".as_bytes()) || bytes_eq(t, "NPEA00449".as_bytes()) || bytes_eq(t, "NPHA80261".as_bytes()) || bytes_eq(t, "NPUA80967".as_bytes())
}

fn is_lbp3_title(t: &[u8]) -> (r: bool)
    ensures
        r == spec_is_lbp3_title(t@),
{
    bytes_eq(t, "BCES02068".as_bytes()) || bytes_eq(t, "BCAS20322".as_bytes()) || bytes_eq(t, "BCJS30095".as_bytes()) || bytes_eq(t, "BCUS98362".as_bytes()) || bytes_eq(t, "NPUA81116".as_bytes()) || bytes_eq(t, "NPEA00515".as_bytes()) || bytes_eq(t, "BCUS81138".as_bytes()) || bytes_eq(t, "NPJA00123".as_bytes()) || bytes_eq(t, "NPHO00189".as_bytes()) || bytes_eq(t, "NPHA80277".as_bytes()) || bytes_eq(t, "NPEA90128".as_bytes()) || bytes_eq(t, "NPUA81174".as_bytes()) || bytes_eq(t, "BCES01663".as_bytes()) || bytes_eq(t, "CUSA00693".as_bytes()) || bytes_eq(t, "CUSA00810".as_bytes()) || bytes_eq(t, "CUSA00738".as_bytes()) || bytes_eq(t, "PCJS50003".as_bytes()) || bytes_eq(t, "CUSA00063".as_bytes()) || bytes_eq(t, "PCKS90007".as_bytes()) || bytes_eq(t, "PCAS00012".as_bytes()) || bytes_eq(t, "CUSA00601".as_bytes()) || bytes_eq(t, "CUSA00762".as_bytes()) || bytes_eq(t, "PCAS20007".as_bytes()) || bytes_eq(t, "CUSA00473".as_bytes()) || bytes_eq(t, "CUSA01072".as_bytes()) || bytes_eq(t, "CUSA01077".as_bytes()) || bytes_eq(t, "CUSA01304".as_bytes())
}

/// The game a service id names: reject a malformed shape, then look the
/// title id up in the three tables in order.
pub open spec fn spec_from_service_id(s: Seq<u8>) -> Result<GameVersion, GameVersionError> {
    if !spec_service_id_shape(s) {
        Err(GameVersionError::InvalidFormat)
    } else {
        let t = spec_title_id(s);
        if spec_is_lbp1_title(t) {
            Ok(GameVersion::Lbp1)
        } else if spec_is_lbp2_title(t) {
            Ok(GameVersion::Lbp2)
        } else if spec_is_lbp3_title(t) {
            Ok(GameVersion::Lbp3)
        } else {
            Err(GameVersionError::UnknownTitleId)
        }
    }
}

fn is_upper(b: u8) -> (r: bool)
    ensures
        r == spec_is_upper(b),
{
    65 <= b && b <= 90
}

fn is_ascii_digit(b: u8) -> (r: bool)
    ensures
        r == spec_is_ascii_digit(b),
{
    48 <= b && b <= 57
}

impl GameVersion {
    /// Looks a service id up.
    pub fn from_service_id(service_id: &str) -> (r: Result<GameVersion, GameVersionError>)
        ensures
            r == spec_from_service_id(service_id.spec_bytes()),
    {
        let s = service_id.as_bytes();
        let shape_ok = s.len() == 19 && is_upper(s[0]) && is_upper(s[1]) && is_ascii_digit(s[2])
            && is_ascii_digit(s[3]) && is_ascii_digit(s[4]) && is_ascii_digit(s[5]) && s[6] == 45
            && is_upper(s[7]) && is_upper(s[8]) && is_upper(s[9]) && is_upper(s[10])
            && is_ascii_digit(s[11]) && is_ascii_digit(s[12]) && is_ascii_digit(s[13])
            && is_ascii_digit(s[14]) && is_ascii_digit(s[15]) && s[16] == 95 && s[17] == 48 && s[18]
            == 48;
        if !shape_ok {
            return Err(GameVersionError::InvalidFormat);
        }
        let title = vstd::slice::slice_subrange(s, 7, 16);
        if is_lbp1_title(title) {
            Ok(GameVersion::Lbp1)
        } else if is_lbp2_title(title) {
            Ok(GameVersion::Lbp2)
        } else if is_lbp3_title(title) {
            Ok(GameVersion::Lbp3)
        } else {
            Err(GameVersionError::UnknownTitleId)
        }
    }

    /// The stable numeric code of a game version, used when a session stores
    /// it.
    pub open spec fn spec_to_u8(self) -> u8 {
        match self {
            GameVersion::Lbp1 => 0,
            GameVersion::Lbp2 => 1,
            GameVersion::Lbp3 => 2,
        }
    }

    pub fn to_u8(self) -> (r: u8)
        ensures
            r == self.spec_to_u8(),
    {
        match self {
            GameVersion::Lbp1 => 0,
            GameVersion::Lbp2 => 1,
            GameVersion::Lbp3 => 2,
        }
    }

    /// The game version a stored numeric code denotes, if any.
    pub fn try_from_u8(v: u8) -> (r: Result<GameVersion, ()>)
        ensures
            r matches Ok(g) ==> g.spec_to_u8() == v,
            r is Err <==> v >= 3,
    {
        match v {
            0 => Ok(GameVersion::Lbp1),
            1 => Ok(GameVersion::Lbp2),
            2 => Ok(GameVersion::Lbp3),
            _ => Err(()),
        }
    }

    /// The short lowercase name of the game version.
    pub fn name(&self) -> (r: &'static str)
        ensures
            r@.len() == 4,
    {
        let s = match self {
            GameVersion::Lbp1 => "lbp1",
            GameVersion::Lbp2 => "lbp2",
            GameVersion::Lbp3 => "lbp3",
        };
        proof {
            reveal_strlit("lbp1");
            reveal_strlit("lbp2");
            reveal_strlit("lbp3");
        }
        s
    }
}

} // verus!
