//! Saves found in emulator directories, and the parsing those directories need.
use vstd::prelude::*;
use vstd::string::{StrSliceExecFns, StringExecFns};

verus! {

/// Which emulator a save belongs to.
#[derive(Clone, Copy, Debug, PartialEq, Eq, Structural)]
pub enum EmuType {
    Yuzu,
    Ryujinx,
}

impl EmuType {
    pub fn name(&self) -> (r: &'static str)
        ensures
            r@ == emu_name(*self),
    {
        match self {
            EmuType::Yuzu => "Yuzu",
            EmuType::Ryujinx => "Ryujinx",
        }
    }
}

pub open spec fn emu_name(t: EmuType) -> Seq<char> {
    match t {
        EmuType::Yuzu => "Yuzu"@,
        EmuType::Ryujinx => "Ryujinx"@,
    }
}

/// `[<emulator>] <dir>`: how a found save is listed.
pub open spec fn listing(t: EmuType, dir: Seq<char>) -> Seq<char> {
    "["@ + emu_name(t) + "] "@ + dir
}

pub fn listing_name(emu_type: EmuType, dir: &str) -> (r: String)
    ensures
        r@ == listing(emu_type, dir@),
{
    let mut r = String::from_str("[");
    r.append(emu_type.name());
    r.append("] ");
    r.append(dir);
    r
}

/// A save found on disk.
pub struct EmuSave {
    pub display_name: String,
    pub location: String,
    pub emu_type: EmuType,
}

impl EmuSave {
    pub fn new(display_name: String, location: String, emu_type: EmuType) -> (r: EmuSave)
        ensures
            r.display_name == display_name,
            r.location == location,
            r.emu_type == emu_type,
    {
        EmuSave { display_name, location, emu_type }
    }

    pub fn get_display_name(&self) -> (r: &String)
        ensures
            r == &self.display_name,
    {
        &self.display_name
    }

    pub fn get_location(&self) -> (r: &String)
        ensures
            r == &self.location,
    {
        &self.location
    }

    pub fn get_emu_type(&self) -> (r: EmuType)
        ensures
            r == self.emu_type,
    {
        self.emu_type
    }

    /// `[<emulator>] <location>`.
    pub fn label(&self) -> (r: String)
        ensures
            r@ == listing(self.emu_type, self.location@),
    {
        listing_name(self.emu_type, self.location.as_str())
    }
}

impl Clone for EmuSave {
    fn clone(&self) -> (r: EmuSave)
        ensures
            r == *self,
    {
        EmuSave {
            display_name: self.display_name.clone(),
            location: self.location.clone(),
            emu_type: self.emu_type,
        }
    }
}

/// The value of a hexadecimal digit, either case.
pub open spec fn hex_value(c: char) -> Option<u8> {
    if '0' <= c <= '9' {
        Some((c as u32 - '0' as u32) as u8)
    } else if 'a' <= c <= 'f' {
        Some((c as u32 - 'a' as u32 + 10) as u8)
    } else if 'A' <= c <= 'F' {
        Some((c as u32 - 'A' as u32 + 10) as u8)
    } else {
        None
    }
}

pub open spec fn is_hex(s: Seq<char>) -> bool {
    &&& s.len() % 2 == 0
    &&& forall|i: int| 0 <= i < s.len() ==> (#[trigger] hex_value(s[i])) is Some
}

/// The bytes that a string of hexadecimal digit pairs spells.
pub open spec fn hex_bytes(s: Seq<char>) -> Seq<u8> {
    Seq::new(
        (s.len() / 2) as nat,
        |i: int| (hex_value(s[2 * i])->Some_0 * 16 + hex_value(s[2 * i + 1])->Some_0) as u8,
    )
}

/// The lower-case hexadecimal digit of `n`.
pub open spec fn hex_digit(n: u8) -> char {
    if n < 10 {
        ('0' as u32 + n) as char
    } else {
        ('a' as u32 + n - 10) as char
    }
}

/// Two lower-case digits per byte.
pub open spec fn hex_text(b: Seq<u8>) -> Seq<char> {
    Seq::new(2 * b.len(), |i: int| if i % 2 == 0 { hex_digit(b[i / 2] / 16) } else { hex_digit(b[i / 2] % 16) })
}

/// A string that is not pairs of hexadecimal digits.
#[derive(Clone, Copy, Debug, PartialEq, Eq, Structural)]
pub struct HexError;

fn digit_value(c: char) -> (r: Option<u8>)
    ensures
        r == hex_value(c),
{
    if '0' <= c && c <= '9' {
        Some((c as u32 - '0' as u32) as u8)
    } else if 'a' <= c && c <= 'f' {
        Some((c as u32 - 'a' as u32 + 10) as u8)
    } else if 'A' <= c && c <= 'F' {
        Some((c as u32 - 'A' as u32 + 10) as u8)
    } else {
        None
    }
}

/// Reads a string of hexadecimal digit pairs.
pub fn decode_hex(s: &str) -> (r: Result<Vec<u8>, HexError>)
    ensures
        r is Ok <==> is_hex(s@),
        r is Ok ==> r->Ok_0@ == hex_bytes(s@),
{
    let n = s.unicode_len();
    if n % 2 != 0 {
        return Err(HexError);
    }
    let mut out: Vec<u8> = Vec::new();
    let mut i: usize = 0;
    while i < n
        invariant
            n == s@.len(),
            n % 2 == 0,
            i % 2 == 0,
            i <= n,
            forall|k: int| 0 <= k < i ==> (#[trigger] hex_value(s@[k])) is Some,
            out@ =~= hex_bytes(s@.take(i as int)),
        decreases n - i,
    {
        let hi = digit_value(s.get_char(i));
        let lo = digit_value(s.get_char(i + 1));
        match (hi, lo) {
            (Some(h), Some(l)) => {
                out.push(h * 16 + l);
                proof {
                    assert forall|k: int| 0 <= k < i + 2 implies (#[trigger] hex_value(s@[k])) is Some by {
                        if k == i + 1 {
                        }
                    }
                    assert(out@ =~= hex_bytes(s@.take(i as int + 2)));
                }
                i = i + 2;
            },
            _ => {
                return Err(HexError);
            },
        }
    }
    assert(s@.take(n as int) =~= s@);
    Ok(out)
}

fn digit_text(n: u8) -> (r: &'static str)
    requires
        n < 16,
    ensures
        r@ == seq![hex_digit(n)],
{
    proof {
        reveal_strlit("0");
        reveal_strlit("1");
        reveal_strlit("2");
        reveal_strlit("3");
        reveal_strlit("4");
        reveal_strlit("5");
        reveal_strlit("6");
        reveal_strlit("7");
        reveal_strlit("8");
        reveal_strlit("9");
        reveal_strlit("a");
        reveal_strlit("b");
        reveal_strlit("c");
        reveal_strlit("d");
        reveal_strlit("e");
        reveal_strlit("f");
    }
    let r = match n {
        0 => "0",
        1 => "1",
        2 => "2",
        3 => "3",
        4 => "4",
        5 => "5",
        6 => "6",
        7 => "7",
        8 => "8",
        9 => "9",
        10 => "a",
        11 => "b",
        12 => "c",
        13 => "d",
        14 => "e",
        _ => "f",
    };
    assert(r@ =~= seq![hex_digit(n)]);
    r
}

/// Writes bytes as lower-case hexadecimal, two digits each.
pub fn encode_hex(bytes: &[u8]) -> (r: String)
    ensures
        r@ == hex_text(bytes@),
{
    let mut s = String::new();
    let mut i: usize = 0;
    while i < bytes.len()
        invariant
            i <= bytes@.len(),
            s@ =~= hex_text(bytes@.take(i as int)),
        decreases bytes@.len() - i,
    {
        let b = bytes[i];
        s.append(digit_text(b / 16));
        s.append(digit_text(b % 16));
        assert(s@ =~= hex_text(bytes@.take(i as int + 1)));
        i = i + 1;
    }
    assert(bytes@.take(i as int) =~= bytes@);
    s
}

/// Title id of the game whose saves are looked for.
pub const SMM2_TITLE_ID: &'static str = "01009B90006DC000";

/// Start of entry `k` in the save index of Ryujinx: a 12-byte header, then
/// entries of 140 bytes.
pub open spec fn entry_start(k: int) -> int {
    12 + 140 * k
}

/// Whether entry `k` is whole enough to read and names the game.
pub open spec fn entry_matches(buf: Seq<u8>, k: int, game_id_le: Seq<u8>) -> bool {
    &&& entry_start(k) + 84 <= buf.len()
    &&& buf.subrange(entry_start(k) + 12, entry_start(k) + 20) == game_id_le
}

/// The save data id of entry `k`: eight little-endian bytes, written as hex.
pub open spec fn entry_save_id(buf: Seq<u8>, k: int) -> Seq<char> {
    hex_text(Seq::new(8, |i: int| buf[entry_start(k) + 83 - i]))
}

/// Save data ids of the matching entries among the first `n`, in order.
pub open spec fn save_ids_upto(buf: Seq<u8>, game_id_le: Seq<u8>, n: int) -> Seq<Seq<char>>
    decreases n,
{
    if n <= 0 {
        Seq::empty()
    } else if entry_matches(buf, n - 1, game_id_le) {
        save_ids_upto(buf, game_id_le, n - 1).push(entry_save_id(buf, n - 1))
    } else {
        save_ids_upto(buf, game_id_le, n - 1)
    }
}

/// Entries that start past the end of the index add nothing.
proof fn lemma_ids_past_end(buf: Seq<u8>, game_id_le: Seq<u8>, k: int, n: int)
    requires
        0 <= k <= n,
        entry_start(k) >= buf.len(),
    ensures
        save_ids_upto(buf, game_id_le, n) == save_ids_upto(buf, game_id_le, k),
    decreases n - k,
{
    if n > k {
        lemma_ids_past_end(buf, game_id_le, k, n - 1);
        assert(entry_start(n - 1) >= entry_start(k));
    }
}

/// The save data ids that the save index of Ryujinx lists for a game, given
/// the game's title id in little-endian byte order.
pub fn find_save_data_ids(index: &Vec<u8>, game_id_le: &Vec<u8>) -> (r: Vec<String>)
    ensures
        r@.map_values(|s: String| s@) == save_ids_upto(index@, game_id_le@, index@.len() as int),
{
    let len = index.len();
    let mut ids: Vec<String> = Vec::new();
    let mut k: usize = 0;
    let mut pos: usize = 12;
    let mut more = len > 12;
    while more
        invariant
            len == index@.len(),
            more ==> pos == entry_start(k as int),
            more ==> pos < len,
            !more ==> entry_start(k as int) >= len,
            k <= len,
            ids@.map_values(|s: String| s@) == save_ids_upto(index@, game_id_le@, k as int),
        decreases len - k,
    {
        let whole = len - pos >= 84;
        let mut matches = whole && game_id_le.len() == 8;
        if matches {
            let mut j: usize = 0;
            while j < 8
                invariant
                    pos + 84 <= len,
                    len == index@.len(),
                    game_id_le@.len() == 8,
                    j <= 8,
                    matches <==> forall|t: int| 0 <= t < j ==> index@[pos + 12 + t] == game_id_le@[t],
                decreases 8 - j,
            {
                if index[pos + 12 + j] != game_id_le[j] {
                    matches = false;
                }
                j = j + 1;
            }
        }
        proof {
            if matches {
                assert(index@.subrange(pos + 12, pos + 20) =~= game_id_le@);
            }
            if whole && entry_matches(index@, k as int, game_id_le@) {
                assert(game_id_le@.len() == 8);
                assert forall|t: int| 0 <= t < 8 implies index@[pos + 12 + t] == game_id_le@[t] by {
                    assert(index@.subrange(pos + 12, pos + 20)[t] == index@[pos + 12 + t]);
                }
            }
        }
        if matches {
            let mut le: Vec<u8> = Vec::new();
            let mut j: usize = 0;
            while j < 8
                invariant
                    pos + 84 <= len,
                    len == index@.len(),
                    j <= 8,
                    le@ =~= Seq::new(j as nat, |i: int| index@[pos + 83 - i]),
                decreases 8 - j,
            {
                le.push(index[pos + 83 - j]);
                j = j + 1;
            }
            ids.push(encode_hex(le.as_slice()));
        }
        proof {
            assert(ids@.map_values(|s: String| s@) =~= save_ids_upto(index@, game_id_le@, k as int + 1));
        }
        k = k + 1;
        more = len - pos > 140;
        if more {
            pos = pos + 140;
        }
    }
    proof {
        lemma_ids_past_end(index@, game_id_le@, k as int, len as int);
    }
    ids
}

} // verus!
