//! Save-slot storage helpers: the storage key and the backup keys that keep
//! an unreadable save safe, the string key-value store both backends
//! implement, the in-memory store the tests run against, and the plain
//! records a save carries.
use crate::chars::{all_blank, is_whitespace, unicode_white_space, chars_of, contains_str, decimal, digit_char, push_decimal, is_blank, lemma_seq_lt_order, owned, push_char, push_str, seq_lt, str_eq, str_lt};
use crate::sprites::player::{outfit_id, OutfitColor};
use vstd::prelude::*;
use vstd::utf8::encode_utf8;

verus! {

/// The storage key holding all three slots as one JSON array.
pub const STORAGE_KEY: &'static str = "robotBuddySaves";

/// Rocket fuel a save starts with when it predates fuel: a full tank.
pub fn default_fuel() -> (f: u32)
    ensures
        f == 10,
{
    10
}

/// The outfit color a save gets when it predates the color picker: the
/// first swatch.
pub fn default_color_choice() -> (s: String)
    ensures
        s@ == outfit_id(OutfitColor::Purple),
{
    owned(OutfitColor::Purple.id())
}

/// Who the player is dressed as.
#[derive(Clone, Copy, PartialEq, Eq, Debug, Structural)]
pub enum Gender {
    Boy,
    Girl,
}

/// The NPC following the player when the game was saved: its stable id, the
/// map it calls home, and the tile it stood on.
#[derive(Clone, Debug)]
pub struct CompanionSave {
    pub kind: String,
    pub home_map: String,
    pub tile_x: usize,
    pub tile_y: usize,
}

// ─── Backup keys ───────────────────────────────────────────

/// One FNV-1a round: fold a byte in, then multiply by the prime modulo 2^64.
pub open spec fn fnv1a_step(h: u64, b: u8) -> u64 {
    (((h ^ (b as u64)) as int * 0x0000_0100_0000_01b3) % 0x1_0000_0000_0000_0000) as u64
}

/// 64-bit FNV-1a of a byte string.
pub open spec fn fnv1a_spec(bytes: Seq<u8>) -> u64
    decreases bytes.len(),
{
    if bytes.len() == 0 {
        0xcbf2_9ce4_8422_2325
    } else {
        fnv1a_step(fnv1a_spec(bytes.drop_last()), bytes.last())
    }
}

/// FNV-1a: tiny and stable across Rust releases, so a backup key never
/// changes under a rebuild.
fn fnv1a64(bytes: &[u8]) -> (h: u64)
    ensures
        h == fnv1a_spec(bytes@),
{
    let mut h: u64 = 0xcbf2_9ce4_8422_2325;
    let mut i: usize = 0;
    while i < bytes.len()
        invariant
            0 <= i <= bytes@.len(),
            h == fnv1a_spec(bytes@.subrange(0, i as int)),
        decreases bytes@.len() - i,
    {
        proof {
            assert(bytes@.subrange(0, i + 1).drop_last() =~= bytes@.subrange(0, i as int));
        }
        h = h ^ (bytes[i] as u64);
        h = h.wrapping_mul(0x0000_0100_0000_01b3);
        i = i + 1;
    }
    proof {
        assert(bytes@.subrange(0, bytes@.len() as int) =~= bytes@);
    }
    h
}

/// The lowercase hex digit for `d` (0 to 15).
pub open spec fn hex_char(d: int) -> char {
    seq!['0', '1', '2', '3', '4', '5', '6', '7', '8', '9', 'a', 'b', 'c', 'd', 'e', 'f'][d]
}

/// The last `n` hex digits of `h`, most significant first, zero padded.
pub open spec fn hex_digits(h: nat, n: nat) -> Seq<char>
    decreases n,
{
    if n == 0 {
        Seq::empty()
    } else {
        hex_digits(h / 16, (n - 1) as nat).push(hex_char((h % 16) as int))
    }
}

fn push_hex(out: &mut String, h: u64, n: usize)
    ensures
        final(out)@ == old(out)@ + hex_digits(h as nat, n as nat),
    decreases n,
{
    if n > 0 {
        push_hex(out, h / 16, n - 1);
        let digits = [
            '0', '1', '2', '3', '4', '5', '6', '7', '8', '9', 'a', 'b', 'c', 'd', 'e', 'f',
        ];
        proof {
            assert(digits@ =~= seq![
                '0', '1', '2', '3', '4', '5', '6', '7', '8', '9', 'a', 'b', 'c', 'd', 'e', 'f',
            ]);
        }
        let d: usize = (h % 16) as usize;
        push_char(out, digits[d]);
        proof {
            assert(final(out)@ =~= old(out)@ + hex_digits(h as nat, n as nat));
        }
    }
}

/// Where an unreadable blob is copied for recovery, under `which` (a slot
/// index, or `file` for a whole unreadable value): the storage key,
/// `.corrupt.`, `which`, a dot, and the FNV-1a hash of the blob's UTF-8 bytes
/// as 16 lowercase hex digits.
pub open spec fn backup_key_spec(which: Seq<char>, raw: Seq<char>) -> Seq<char> {
    STORAGE_KEY@ + ".corrupt."@ + which + "."@ + hex_digits(fnv1a_spec(encode_utf8(raw)) as nat, 16)
}

/// Keyed by content hash, not time: the same bytes are backed up once,
/// however many times the title screen reloads.
pub fn backup_key(which: &str, raw: &str) -> (k: String)
    ensures
        k@ == backup_key_spec(which@, raw@),
{
    let h = fnv1a64(raw.as_bytes());
    let mut k = String::new();
    push_str(&mut k, STORAGE_KEY);
    push_str(&mut k, ".corrupt.");
    push_str(&mut k, which);
    push_str(&mut k, ".");
    push_hex(&mut k, h, 16);
    k
}

/// A backup key is never the storage key itself, so backing a blob up never
/// overwrites the saves.
pub proof fn lemma_backup_key_is_not_the_storage_key(which: Seq<char>, raw: Seq<char>)
    ensures
        backup_key_spec(which, raw) != STORAGE_KEY@,
{
    reveal_strlit("robotBuddySaves");
    assert(backup_key_spec(which, raw).len() > STORAGE_KEY@.len());
}

proof fn lemma_hex_len(h: nat, n: nat)
    ensures
        hex_digits(h, n).len() == n,
    decreases n,
{
    if n > 0 {
        lemma_hex_len(h / 16, (n - 1) as nat);
    }
}

/// Blobs backed up under different names never share a backup key.
pub proof fn lemma_backup_keys_differ(w1: Seq<char>, r1: Seq<char>, w2: Seq<char>, r2: Seq<char>)
    requires
        w1 != w2,
    ensures
        backup_key_spec(w1, r1) != backup_key_spec(w2, r2),
{
    let p = STORAGE_KEY@ + ".corrupt."@;
    let k1 = backup_key_spec(w1, r1);
    let k2 = backup_key_spec(w2, r2);
    lemma_hex_len(fnv1a_spec(encode_utf8(r1)) as nat, 16);
    lemma_hex_len(fnv1a_spec(encode_utf8(r2)) as nat, 16);
    if w1.len() == w2.len() {
        assert(k1.subrange(p.len() as int, (p.len() + w1.len()) as int) =~= w1);
        assert(k2.subrange(p.len() as int, (p.len() + w2.len()) as int) =~= w2);
    } else {
        assert(k1.len() != k2.len());
    }
}

// ─── Migrating old saves ───────────────────────────────────

/// The math band after loading an old save that kept it outside the
/// profile: it moves into a profile still at the starting band 1.
pub open spec fn band_after_migration(legacy: Option<u8>, current: u8) -> u8 {
    match legacy {
        Some(b) => if current == 1 && b != 1 {
            b
        } else {
            current
        },
        None => current,
    }
}

/// The profile's math band once an old save's own band (`legacy`) has been
/// moved in.
pub fn migrate_band(legacy: Option<u8>, current: u8) -> (b: u8)
    ensures
        b == band_after_migration(legacy, current),
{
    match legacy {
        Some(band) => if current == 1 && band != 1 {
            band
        } else {
            current
        },
        None => current,
    }
}

/// The characters of each string.
pub open spec fn strs(v: Seq<String>) -> Seq<Seq<char>> {
    v.map_values(|s: String| s@)
}

/// `seen` with each of `maps` added at the end, in order, unless already
/// there.
pub open spec fn add_new(seen: Seq<Seq<char>>, maps: Seq<Seq<char>>) -> Seq<Seq<char>>
    decreases maps.len(),
{
    if maps.len() == 0 {
        seen
    } else {
        let s = add_new(seen, maps.drop_last());
        if s.contains(maps.last()) {
            s
        } else {
            s.push(maps.last())
        }
    }
}

/// The intros seen, once an old save without any has been given those it
/// must have played: every paid toll's map and the map the kid stands on.
/// A save that already lists intros keeps its list.
pub open spec fn intros_after_migration(seen: Seq<Seq<char>>, paid_tolls: Seq<Seq<char>>, map_id: Seq<char>) -> Seq<Seq<char>> {
    if seen.len() == 0 {
        add_new(seen, paid_tolls.push(map_id))
    } else {
        seen
    }
}

/// Migrating the intro list is idempotent: a migrated list always holds
/// the current map, so a second migration keeps it as it is.
pub proof fn lemma_intro_migration_idempotent(seen: Seq<Seq<char>>, paid_tolls: Seq<Seq<char>>, map_id: Seq<char>)
    ensures
        intros_after_migration(seen, paid_tolls, map_id).contains(map_id) || seen.len() > 0,
        intros_after_migration(intros_after_migration(seen, paid_tolls, map_id), paid_tolls, map_id)
            == intros_after_migration(seen, paid_tolls, map_id),
{
    if seen.len() == 0 {
        let maps = paid_tolls.push(map_id);
        let s = add_new(seen, maps.drop_last());
        assert(maps.last() == map_id);
        if s.contains(map_id) {
        } else {
            assert(s.push(map_id)[s.len() as int] == map_id);
        }
        assert(add_new(seen, maps).contains(map_id));
    }
}

/// Infer, for an old save, which arrival intros have already played.
pub fn migrate_seen_intros(seen: Vec<String>, paid_tolls: &Vec<String>, map_id: &str) -> (v: Vec<String>)
    ensures
        strs(v@) == intros_after_migration(strs(seen@), strs(paid_tolls@), map_id@),
{
    if seen.len() > 0 {
        return seen;
    }
    let ghost maps = strs(paid_tolls@).push(map_id@);
    let mut out: Vec<String> = seen;
    let mut i: usize = 0;
    while i < paid_tolls.len()
        invariant
            0 <= i <= paid_tolls@.len(),
            maps == strs(paid_tolls@).push(map_id@),
            strs(out@) == add_new(Seq::empty(), maps.subrange(0, i as int)),
        decreases paid_tolls@.len() - i,
    {
        proof {
            assert(maps.subrange(0, i + 1).drop_last() =~= maps.subrange(0, i as int));
            assert(maps.subrange(0, i + 1).last() == paid_tolls@[i as int]@);
        }
        if !contains_str(&out, paid_tolls[i].as_str()) {
            out.push(paid_tolls[i].clone());
            proof {
                assert(strs(out@) =~= add_new(Seq::empty(), maps.subrange(0, i as int)).push(paid_tolls@[i as int]@));
            }
        }
        i = i + 1;
    }
    proof {
        assert(maps.drop_last() =~= maps.subrange(0, i as int));
        assert(strs(seen@) =~= Seq::<Seq<char>>::empty());
    }
    if !contains_str(&out, map_id) {
        out.push(owned(map_id));
        proof {
            assert(strs(out@) =~= add_new(Seq::empty(), maps.drop_last()).push(map_id@));
        }
    }
    out
}

// ─── Unreadable slots ──────────────────────────────────────

/// A slot this build can't read, kept exactly as found.
#[derive(Clone, Debug, PartialEq)]
pub struct UnreadableSlot {
    /// The slot's JSON text, byte-for-byte as it sat in storage.
    pub raw: String,
    /// The kid's name, if the slot is still JSON with a non-blank `name`
    /// string, so the title screen can say whose file is resting.
    pub name: Option<String>,
    /// Why it didn't decode. For logs, never for the kid.
    pub reason: String,
}

/// What `serde_json` finds as the string member `member` of the JSON text
/// `raw`: `None` when the text is not JSON, not an object, lacks the member,
/// or the member is not a string.
pub uninterp spec fn json_string_member(raw: Seq<char>, member: Seq<char>) -> Option<Seq<char>>;

/// `serde_json::from_str::<Value>` on `raw`, then `Value::get(member)` and
/// `Value::as_str`. The contract names the outcome and claims only that it
/// depends on the two strings alone.
#[verifier::external_body]
fn json_member(raw: &str, member: &str) -> (r: Option<String>)
    ensures
        match r {
            Some(n) => json_string_member(raw@, member@) == Some(n@),
            None => json_string_member(raw@, member@) is None,
        },
{
    serde_json::from_str::<serde_json::Value>(raw).ok().and_then(
        |v| v.get(member).and_then(|n| n.as_str()).map(|n| n.to_string()),
    )
}

/// The name an unreadable slot shows: the one found in its text, unless
/// that is blank.
pub open spec fn shown_name(found: Option<Seq<char>>) -> Option<Seq<char>> {
    match found {
        Some(n) => if all_blank(n) {
            None
        } else {
            Some(n)
        },
        None => None,
    }
}

/// The characters of an optional string.
pub open spec fn opt_view(o: Option<String>) -> Option<Seq<char>> {
    match o {
        Some(s) => Some(s@),
        None => None,
    }
}

/// Keep an unreadable slot given the name member found in its text.
pub fn unreadable_with_name(raw: &str, reason: String, found: Option<String>) -> (u: UnreadableSlot)
    ensures
        u.raw@ == raw@,
        u.reason@ == reason@,
        match u.name {
            Some(n) => shown_name(opt_view(found)) == Some(n@),
            None => shown_name(opt_view(found)) is None,
        },
{
    let name = match found {
        Some(n) => if is_blank(n.as_str()) {
            None
        } else {
            Some(n)
        },
        None => None,
    };
    UnreadableSlot { raw: owned(raw), name, reason }
}

/// Keep a slot this build can't read, with the kid's name if its text still
/// carries one.
pub fn unreadable(raw: &str, reason: String) -> (u: UnreadableSlot)
    ensures
        u.raw@ == raw@,
        u.reason@ == reason@,
        match u.name {
            Some(n) => shown_name(json_string_member(raw@, "name"@)) == Some(n@),
            None => shown_name(json_string_member(raw@, "name"@)) is None,
        },
{
    let found = json_member(raw, "name");
    unreadable_with_name(raw, reason, found)
}

// ─── Decoding the storage value ────────────────────────────

/// What `serde_json::from_str::<Vec<&RawValue>>` finds in `json`: the text
/// of each element of a top-level JSON array, byte for byte, or `None` when
/// `json` is not a JSON array.
pub uninterp spec fn json_array_items(json: Seq<char>) -> Option<Seq<Seq<char>>>;

/// `serde_json::from_str::<Vec<&serde_json::value::RawValue>>` on `json`,
/// each element's text (`RawValue::get`) copied out. Claimed: on success the
/// texts are the named outcome for `json`; on failure the named outcome is
/// `None` and the error's message (not stated) comes back.
#[verifier::external_body]
fn json_array(json: &str) -> (r: Result<Vec<String>, String>)
    ensures
        match r {
            Ok(items) => json_array_items(json@) == Some(items@.map_values(|x: String| x@)),
            Err(_) => json_array_items(json@) is None,
        },
{
    match serde_json::from_str::<Vec<&serde_json::value::RawValue>>(json) {
        Ok(v) => Ok(v.iter().map(|r| r.get().to_string()).collect()),
        Err(e) => Err(e.to_string()),
    }
}

/// The storage value split into slots: each slot's JSON text as stored
/// (`None` where the array has no entry), and the whole value kept as an
/// unreadable file when it is not a readable slot array (not a JSON array,
/// or more than three entries). Such a file must be backed up before the
/// key is next written, since the rewrite can't preserve it.
#[derive(Debug)]
pub struct DecodedRaw {
    pub slots: Vec<Option<String>>,
    pub unreadable_file: Option<UnreadableSlot>,
}

/// `name` is the name shown for the unreadable text `raw`.
pub open spec fn kept_name(name: Option<String>, raw: Seq<char>) -> bool {
    match name {
        Some(n) => shown_name(json_string_member(raw, "name"@)) == Some(n@),
        None => shown_name(json_string_member(raw, "name"@)) is None,
    }
}

/// The slots are `items`' first three texts, in order, the rest empty.
pub open spec fn slots_from(slots: Seq<Option<String>>, items: Seq<Seq<char>>) -> bool {
    &&& slots.len() == 3
    &&& forall|i: int|
        0 <= i < 3 ==> opt_view(#[trigger] slots[i]) == (if i < items.len() {
            Some(items[i])
        } else {
            None
        })
}

/// Split the storage value into slots, given what the array parse of `json`
/// gave: its element texts, or the parser's message. Never fails: anything
/// unreadable is reported, not discarded.
pub fn decode_saves_raw(json: &str, items: Result<Vec<String>, String>) -> (d: DecodedRaw)
    ensures
        match items {
            Err(e) => {
                &&& slots_from(d.slots@, Seq::empty())
                &&& d.unreadable_file matches Some(u) && u.raw@ == json@ && u.reason@ == "save file: "@
                    + e@ && kept_name(u.name, json@)
            },
            Ok(v) => {
                &&& slots_from(d.slots@, v@.map_values(|x: String| x@))
                &&& (d.unreadable_file is Some <==> v@.len() > 3)
                &&& v@.len() > 3 ==> (d.unreadable_file matches Some(u) && u.raw@ == json@ && u.reason@
                    == "save file has "@ + decimal(v@.len() as nat) + " slots, expected 3"@
                    && kept_name(u.name, json@))
            },
        },
{
    match items {
        Err(e) => {
            let mut reason = String::new();
            push_str(&mut reason, "save file: ");
            push_str(&mut reason, e.as_str());
            let u = unreadable(json, reason);
            let slots: Vec<Option<String>> = vec![None, None, None];
            proof {
                assert(slots@.len() == 3);
            }
            DecodedRaw { slots, unreadable_file: Some(u) }
        },
        Ok(v) => {
            let ghost texts = v@.map_values(|x: String| x@);
            let mut slots: Vec<Option<String>> = Vec::new();
            let mut i: usize = 0;
            while i < 3
                invariant
                    0 <= i <= 3,
                    texts == v@.map_values(|x: String| x@),
                    slots@.len() == i,
                    forall|j: int|
                        0 <= j < i ==> opt_view(#[trigger] slots@[j]) == (if j < texts.len() {
                            Some(texts[j])
                        } else {
                            None
                        }),
                decreases 3 - i,
            {
                if i < v.len() {
                    slots.push(Some(v[i].clone()));
                } else {
                    slots.push(None);
                }
                i = i + 1;
            }
            let unreadable_file = if v.len() > 3 {
                let mut reason = String::new();
                push_str(&mut reason, "save file has ");
                push_decimal(&mut reason, v.len() as u64);
                push_str(&mut reason, " slots, expected 3");
                Some(unreadable(json, reason))
            } else {
                None
            };
            DecodedRaw { slots, unreadable_file }
        },
    }
}

/// Split the storage value into slots. Each slot's text is then read as a
/// save (or kept as unreadable) on its own, so one bad slot never takes the
/// others down.
pub fn decode_saves(json: &str) -> (d: DecodedRaw)
    ensures
        match json_array_items(json@) {
            None => {
                &&& slots_from(d.slots@, Seq::empty())
                &&& d.unreadable_file matches Some(u) && u.raw@ == json@ && kept_name(u.name, json@)
            },
            Some(items) => {
                &&& slots_from(d.slots@, items)
                &&& (d.unreadable_file is Some <==> items.len() > 3)
                &&& items.len() > 3 ==> (d.unreadable_file matches Some(u) && u.raw@ == json@
                    && u.reason@ == "save file has "@ + decimal(items.len() as nat)
                    + " slots, expected 3"@ && kept_name(u.name, json@))
            },
        },
{
    let items = json_array(json);
    decode_saves_raw(json, items)
}

// ─── Decoding one slot ─────────────────────────────────────

/// One slot of the saves value, read: empty, a save record, or kept as found
/// when this build can't read it.
#[derive(Clone, Debug)]
pub enum StoredSlot<T> {
    Empty,
    Save(T),
    /// Present, but not readable as a save: never shown as empty, never
    /// dropped.
    Unreadable(UnreadableSlot),
}

/// `s` is `null`, give or take whitespace around it.
pub open spec fn null_text(s: Seq<char>) -> bool {
    exists|i: int, j: int|
        0 <= i <= j <= s.len() && all_blank(s.subrange(0, i)) && all_blank(s.subrange(j, s.len() as int))
            && #[trigger] s.subrange(i, j) == "null"@
}

fn is_null_text(raw: &str) -> (b: bool)
    ensures
        b == null_text(raw@),
{
    let cs = chars_of(raw);
    let n = cs.len();
    let mut i: usize = 0;
    while i < n
        invariant
            cs@ == raw@,
            n == cs@.len(),
            i <= n,
            forall|k: int| 0 <= k < i ==> unicode_white_space(#[trigger] cs@[k]),
        ensures
            i <= n,
            forall|k: int| 0 <= k < i ==> unicode_white_space(#[trigger] cs@[k]),
            i < n ==> !unicode_white_space(cs@[i as int]),
        decreases n - i,
    {
        if !is_whitespace(cs[i]) {
            break;
        }
        i = i + 1;
    }
    let mut j: usize = n;
    while j > i
        invariant
            cs@ == raw@,
            n == cs@.len(),
            i <= j <= n,
            forall|k: int| j <= k < n ==> unicode_white_space(#[trigger] cs@[k]),
        ensures
            i <= j <= n,
            forall|k: int| j <= k < n ==> unicode_white_space(#[trigger] cs@[k]),
            j > i ==> !unicode_white_space(cs@[j - 1]),
        decreases j - i,
    {
        if !is_whitespace(cs[j - 1]) {
            break;
        }
        j = j - 1;
    }
    proof {
        reveal_strlit("null");
    }
    let b = j - i == 4 && cs[i] == 'n' && cs[i + 1] == 'u' && cs[i + 2] == 'l' && cs[i + 3] == 'l';
    let ghost s = raw@;
    proof {
        if b {
            assert(s.subrange(i as int, j as int) =~= "null"@);
            assert(all_blank(s.subrange(0, i as int)));
            assert(all_blank(s.subrange(j as int, s.len() as int)));
        } else if null_text(s) {
            let (i2, j2) = choose|i2: int, j2: int|
                0 <= i2 <= j2 <= s.len() && all_blank(s.subrange(0, i2)) && all_blank(
                    s.subrange(j2, s.len() as int),
                ) && #[trigger] s.subrange(i2, j2) == "null"@;
            assert(s.subrange(i2, j2).len() == 4);
            assert(s[i2] == s.subrange(i2, j2)[0]);
            assert(s[j2 - 1] == s.subrange(i2, j2)[3]);
            assert(!unicode_white_space('n'));
            assert(!unicode_white_space('l'));
            if i2 < i {
                assert(unicode_white_space(cs@[i2]));
            }
            if i < i2 {
                assert(s.subrange(0, i2)[i as int] == s[i as int]);
            }
            assert(i2 == i);
            if j2 > j {
                assert(unicode_white_space(cs@[j2 - 1]));
            }
            if j2 < j {
                assert(s.subrange(j2, s.len() as int)[j - 1 - j2] == s[j - 1]);
            }
            assert(j2 == j);
            assert(s[i + 1] == s.subrange(i2, j2)[1]);
            assert(s[i + 2] == s.subrange(i2, j2)[2]);
        }
    }
    b
}

/// `slot` is the slot read from the text `raw`, given what parsing `raw` as
/// a save record gave.
pub open spec fn decoded_from<T>(raw: Seq<char>, parsed: Result<T, String>, slot: StoredSlot<T>) -> bool {
    if null_text(raw) {
        slot is Empty
    } else {
        match parsed {
            Ok(t) => slot == StoredSlot::<T>::Save(t),
            Err(e) => slot matches StoredSlot::Unreadable(u) && u.raw@ == raw && u.reason@ == e@
                && kept_name(u.name, raw),
        }
    }
}

/// Read one slot's text `raw`, given what parsing it as a save record gave
/// (the record, or the parser's message): `null` is an empty slot; otherwise
/// the record, or, failing that, the untouched text kept as unreadable with
/// the message as its reason.
pub fn decode_slot<T>(raw: &str, parsed: Result<T, String>) -> (slot: StoredSlot<T>)
    ensures
        decoded_from(raw@, parsed, slot),
{
    if is_null_text(raw) {
        return StoredSlot::Empty;
    }
    match parsed {
        Ok(t) => StoredSlot::Save(t),
        Err(e) => StoredSlot::Unreadable(unreadable(raw, e)),
    }
}

/// The saves value read slot by slot, with the unreadable whole value, if
/// any.
#[derive(Debug)]
pub struct DecodedSaves<T> {
    pub slots: Vec<StoredSlot<T>>,
    pub unreadable_file: Option<UnreadableSlot>,
}

/// `slot` is what a slot with text `text` (`None`: no entry) reads as.
pub open spec fn slot_read<T>(text: Option<String>, parsed: Result<T, String>, slot: StoredSlot<T>) -> bool {
    match text {
        None => slot is Empty,
        Some(t) => decoded_from(t@, parsed, slot),
    }
}

/// Read the slots of a split storage value, given what parsing each slot's
/// text as a save record gave (entries for slots without text are not
/// looked at). One bad slot never takes the other two down.
pub fn decode_slots<T>(raw: DecodedRaw, parsed: Vec<Result<T, String>>) -> (d: DecodedSaves<T>)
    requires
        raw.slots@.len() == 3,
        parsed@.len() == 3,
    ensures
        d.slots@.len() == 3,
        forall|i: int| 0 <= i < 3 ==> slot_read(raw.slots@[i], parsed@[i], #[trigger] d.slots@[i]),
        d.unreadable_file == raw.unreadable_file,
{
    let ghost all = parsed@;
    let mut rest = parsed;
    let mut slots: Vec<StoredSlot<T>> = Vec::new();
    let mut i: usize = 0;
    while i < 3
        invariant
            0 <= i <= 3,
            raw.slots@.len() == 3,
            all.len() == 3,
            rest@ == all.subrange(i as int, 3),
            slots@.len() == i,
            forall|k: int| 0 <= k < i ==> slot_read(raw.slots@[k], all[k], #[trigger] slots@[k]),
        decreases 3 - i,
    {
        let p = rest.remove(0);
        proof {
            assert(p == all[i as int]);
            assert(rest@ =~= all.subrange(i + 1, 3));
        }
        let slot = match &raw.slots[i] {
            None => StoredSlot::Empty,
            Some(t) => decode_slot(t.as_str(), p),
        };
        slots.push(slot);
        i = i + 1;
    }
    DecodedSaves { slots, unreadable_file: raw.unreadable_file }
}

/// Texts joined with commas between them.
pub open spec fn join_commas(parts: Seq<Seq<char>>) -> Seq<char>
    decreases parts.len(),
{
    if parts.len() == 0 {
        Seq::empty()
    } else if parts.len() == 1 {
        parts[0]
    } else {
        join_commas(parts.drop_last()) + ","@ + parts.last()
    }
}

/// A slot's text on disk: `null` when empty.
pub open spec fn slot_text(o: Option<String>) -> Seq<char> {
    match o {
        Some(t) => t@,
        None => "null"@,
    }
}

/// The storage value for slot texts: a JSON array of them, in order.
pub open spec fn encoded_slots(slots: Seq<Option<String>>) -> Seq<char> {
    "["@ + join_commas(slots.map_values(|o: Option<String>| slot_text(o))) + "]"@
}

/// Write slot texts back as one storage value. Texts kept from unreadable
/// slots go back exactly as they came.
pub fn encode_saves_raw(slots: &Vec<Option<String>>) -> (s: String)
    ensures
        s@ == encoded_slots(slots@),
{
    let ghost texts = slots@.map_values(|o: Option<String>| slot_text(o));
    let mut s = String::new();
    push_str(&mut s, "[");
    let mut i: usize = 0;
    while i < slots.len()
        invariant
            0 <= i <= slots@.len(),
            texts == slots@.map_values(|o: Option<String>| slot_text(o)),
            s@ == "["@ + join_commas(texts.subrange(0, i as int)),
        decreases slots@.len() - i,
    {
        let ghost before = s@;
        if i > 0 {
            push_str(&mut s, ",");
        }
        match &slots[i] {
            Some(t) => push_str(&mut s, t.as_str()),
            None => push_str(&mut s, "null"),
        }
        proof {
            let p2 = texts.subrange(0, i + 1);
            assert(p2.drop_last() =~= texts.subrange(0, i as int));
            assert(p2.last() == slot_text(slots@[i as int]));
            if i == 0 {
                assert(p2.len() == 1);
                assert(s@ =~= "["@ + join_commas(p2));
            } else {
                assert(s@ =~= "["@ + join_commas(p2));
            }
        }
        i = i + 1;
    }
    proof {
        assert(texts.subrange(0, i as int) =~= texts);
    }
    push_str(&mut s, "]");
    s
}

// ─── Raw storage ───────────────────────────────────────────

/// A string key-value store (browser localStorage, a directory, a map).
pub trait RawStorage {
    /// What the store holds, key to value.
    spec fn stored(&self) -> Map<Seq<char>, Seq<char>>;

    /// The value under `key`, if any.
    fn get(&self, key: &str) -> (r: Option<String>)
        ensures
            match r {
                Some(v) => self.stored().contains_key(key@) && self.stored()[key@] == v@,
                None => !self.stored().contains_key(key@),
            },
    ;

    /// Whether the store keeps every write it is given. Browser storage can
    /// refuse one (a full quota, say); a store that never does says so here.
    spec fn takes_writes(&self) -> bool;

    /// Store `value` under `key`. A store may fail to take the write; no
    /// other key is touched either way, and a store that takes writes holds
    /// `value` under `key` afterwards.
    fn set(&mut self, key: &str, value: &str)
        ensures
            forall|k: Seq<char>|
                k != key@ ==> #[trigger] final(self).stored().get(k) == old(self).stored().get(k),
            old(self).takes_writes() ==> final(self).stored() == old(self).stored().insert(key@, value@),
            final(self).takes_writes() == old(self).takes_writes(),
    ;

    /// Seconds since the epoch, or 0 where there's no clock. A store without
    /// a clock keeps this default, which always says 0.
    fn now(&self) -> (t: u64)
        default_ensures
            t == 0,
    {
        0
    }
}

/// Whether the store holds exactly `value` under `key`.
fn holds<S: RawStorage>(store: &S, key: &str, value: &str) -> (b: bool)
    ensures
        b == (store.stored().get(key@) == Some(value@)),
{
    match store.get(key) {
        Some(v) => str_eq(v.as_str(), value),
        None => false,
    }
}

/// Copy an unreadable blob to its backup key unless it's already there.
/// Returns true iff the backup exists afterwards.
pub fn ensure_backup<S: RawStorage>(store: &mut S, which: &str, u: &UnreadableSlot) -> (ok: bool)
    ensures
        ok == (final(store).stored().get(backup_key_spec(which@, u.raw@)) == Some(u.raw@)),
        old(store).stored().get(backup_key_spec(which@, u.raw@)) == Some(u.raw@)
            ==> final(store).stored() == old(store).stored(),
        forall|k: Seq<char>|
            k != backup_key_spec(which@, u.raw@)
                ==> #[trigger] final(store).stored().get(k) == old(store).stored().get(k),
        old(store).takes_writes() ==> ok,
        final(store).takes_writes() == old(store).takes_writes(),
{
    let key = backup_key(which, u.raw.as_str());
    if holds(store, key.as_str(), u.raw.as_str()) {
        return true;
    }
    store.set(key.as_str(), u.raw.as_str());
    holds(store, key.as_str(), u.raw.as_str())
}

// ─── Writing a slot ────────────────────────────────────────

/// One slot as it goes back to storage.
#[derive(Clone, Debug)]
pub enum SlotText {
    Empty,
    /// A readable save, in the text it is written back as.
    Save(String),
    /// A slot this build can't read, kept as found.
    Unreadable(UnreadableSlot),
}

/// The text a slot is written back as; `None` is an empty slot.
pub open spec fn disk_text(t: SlotText) -> Option<String> {
    match t {
        SlotText::Empty => None,
        SlotText::Save(s) => Some(s),
        SlotText::Unreadable(u) => Some(u.raw),
    }
}

/// The storage value that holds `slots`.
pub open spec fn slots_value(slots: Seq<SlotText>) -> Seq<char> {
    encoded_slots(slots.map_values(|t: SlotText| disk_text(t)))
}

/// The store holds the backup of blob `u` under the key for `which`.
pub open spec fn backed_up(stored: Map<Seq<char>, Seq<char>>, which: Seq<char>, u: UnreadableSlot) -> bool {
    stored.get(backup_key_spec(which, u.raw@)) == Some(u.raw@)
}

/// The names of the three slots, "0", "1" and "2", are one digit each and
/// differ from one another and from "file".
proof fn lemma_small_names_differ(i: nat)
    requires
        i < 3,
    ensures
        decimal(i) == seq![digit_char(i as int)],
        decimal(i).len() == 1,
        forall|j: nat| j < 3 && j != i ==> decimal(j) != decimal(i),
{
    assert(decimal(0) == seq![digit_char(0)]);
    assert(decimal(1) == seq![digit_char(1)]);
    assert(decimal(2) == seq![digit_char(2)]);
    assert(digit_char(0) != digit_char(1));
    assert(digit_char(0) != digit_char(2));
    assert(digit_char(1) != digit_char(2));
    assert forall|j: nat| j < 3 && j != i implies decimal(j) != decimal(i) by {
        assert(decimal(j)[0] != decimal(i)[0]);
    }
}

fn slot_name(i: usize) -> (s: String)
    ensures
        s@ == decimal(i as nat),
{
    let mut s = String::new();
    push_decimal(&mut s, i as u64);
    s
}

/// Back up whatever of the stored saves can't be read: the whole value
/// (`file_blob`) and each unreadable slot. The answer says whether the
/// value may be written: false exactly when a whole-value blob has no
/// backup afterwards, since rewriting the value would destroy it. The saves
/// themselves are not touched; a store that takes writes ends up with every
/// backup.
pub fn back_up_unreadable<S: RawStorage>(store: &mut S, file_blob: &Option<UnreadableSlot>, slots: &Vec<SlotText>) -> (safe: bool)
    requires
        slots@.len() == 3,
    ensures
        safe == (file_blob matches Some(b) ==> backed_up(final(store).stored(), "file"@, *b)),
        final(store).stored().get(STORAGE_KEY@) == old(store).stored().get(STORAGE_KEY@),
        old(store).takes_writes() ==> safe,
        old(store).takes_writes() ==> forall|i: int|
            0 <= i < slots@.len() && #[trigger] slots@[i] is Unreadable ==> backed_up(
                final(store).stored(),
                decimal(i as nat),
                slots@[i]->Unreadable_0,
            ),
{
    let mut safe = true;
    let ghost start = store.stored();
    if let Some(b) = file_blob {
        proof {
            lemma_backup_key_is_not_the_storage_key("file"@, b.raw@);
        }
        safe = ensure_backup(store, "file", b);
    }
    let mut i: usize = 0;
    while i < slots.len()
        invariant
            0 <= i <= slots@.len(),
            slots@.len() == 3,
            safe == (file_blob matches Some(b) ==> backed_up(store.stored(), "file"@, *b)),
            store.stored().get(STORAGE_KEY@) == start.get(STORAGE_KEY@),
            store.takes_writes() == old(store).takes_writes(),
            old(store).takes_writes() ==> safe,
            old(store).takes_writes() ==> forall|j: int|
                0 <= j < i && #[trigger] slots@[j] is Unreadable ==> backed_up(
                    store.stored(),
                    decimal(j as nat),
                    slots@[j]->Unreadable_0,
                ),
        decreases slots@.len() - i,
    {
        if let SlotText::Unreadable(u) = &slots[i] {
            let name = slot_name(i);
            let ghost before = store.stored();
            proof {
                lemma_backup_key_is_not_the_storage_key(name@, u.raw@);
            }
            ensure_backup(store, name.as_str(), u);
            proof {
                reveal_strlit("file");
                lemma_small_names_differ(i as nat);
                if let Some(b) = file_blob {
                    lemma_backup_keys_differ("file"@, b.raw@, name@, u.raw@);
                }
                assert forall|j: int|
                    0 <= j < i && #[trigger] slots@[j] is Unreadable implies before.get(
                        backup_key_spec(decimal(j as nat), slots@[j]->Unreadable_0.raw@),
                    ) == store.stored().get(backup_key_spec(decimal(j as nat), slots@[j]->Unreadable_0.raw@)) by {
                    lemma_small_names_differ(j as nat);
                    lemma_backup_keys_differ(decimal(j as nat), slots@[j]->Unreadable_0.raw@, name@, u.raw@);
                }
            }
        }
        i = i + 1;
    }
    safe
}

fn disk_texts(slots: &Vec<SlotText>) -> (v: Vec<Option<String>>)
    ensures
        v@ == slots@.map_values(|t: SlotText| disk_text(t)),
{
    let mut v: Vec<Option<String>> = Vec::new();
    let mut i: usize = 0;
    while i < slots.len()
        invariant
            0 <= i <= slots@.len(),
            v@ =~= slots@.subrange(0, i as int).map_values(|t: SlotText| disk_text(t)),
        decreases slots@.len() - i,
    {
        let t = match &slots[i] {
            SlotText::Empty => None,
            SlotText::Save(text) => Some(text.clone()),
            SlotText::Unreadable(u) => Some(u.raw.clone()),
        };
        v.push(t);
        i = i + 1;
        proof {
            assert(v@ =~= slots@.subrange(0, i as int).map_values(|t: SlotText| disk_text(t)));
        }
    }
    proof {
        assert(slots@.subrange(0, i as int) =~= slots@);
    }
    v
}

/// Replace slot `slot` of `slots` (the stored saves as read, readable ones
/// in the text they are written back as) with `new`, leaving the other two
/// exactly as they were. Nothing is written when `slot` is no slot, when the
/// stored value is not `safe` to rewrite (see `back_up_unreadable`), or when
/// the slot being replaced can't be read and its backup can't be made. The
/// answer says whether the new value was handed to the store; a store that
/// takes writes then holds it.
pub fn write_slot<S: RawStorage>(store: &mut S, slots: Vec<SlotText>, safe: bool, slot: usize, new: SlotText) -> (written: bool)
    requires
        slots@.len() == 3,
    ensures
        written ==> slot < 3 && safe,
        written && old(store).takes_writes() ==> final(store).stored().get(STORAGE_KEY@) == Some(
            slots_value(slots@.update(slot as int, new)),
        ),
        written && slots@[slot as int] is Unreadable ==> backed_up(
            final(store).stored(),
            decimal(slot as nat),
            slots@[slot as int]->Unreadable_0,
        ),
        !written ==> final(store).stored().get(STORAGE_KEY@) == old(store).stored().get(STORAGE_KEY@),
        slot >= 3 || !safe ==> !written && final(store).stored() == old(store).stored(),
        slot < 3 && safe && old(store).takes_writes() ==> written,
        forall|k: Seq<char>|
            k != STORAGE_KEY@ && (slot >= 3 || !(slots@[slot as int] is Unreadable) || k != backup_key_spec(
                decimal(slot as nat),
                slots@[slot as int]->Unreadable_0.raw@,
            )) ==> #[trigger] final(store).stored().get(k) == old(store).stored().get(k),
{
    if slot >= 3 || !safe {
        return false;
    }
    if let SlotText::Unreadable(u) = &slots[slot] {
        let name = slot_name(slot);
        proof {
            lemma_backup_key_is_not_the_storage_key(name@, u.raw@);
        }
        if !ensure_backup(store, name.as_str(), u) {
            return false;
        }
    }
    let mut slots = slots;
    slots.set(slot, new);
    let texts = disk_texts(&slots);
    let value = encode_saves_raw(&texts);
    store.set(STORAGE_KEY, value.as_str());
    true
}

/// Writing one slot leaves the other two as they were: in the value
/// written, every other slot has the text it had, and the written slot has
/// the new one.
pub proof fn lemma_write_keeps_other_slots(slots: Seq<SlotText>, slot: int, new: SlotText, j: int)
    requires
        0 <= slot < slots.len(),
        0 <= j < slots.len(),
    ensures
        slots.update(slot, new).map_values(|t: SlotText| disk_text(t)).len() == slots.len(),
        j != slot ==> slots.update(slot, new).map_values(|t: SlotText| disk_text(t))[j] == disk_text(slots[j]),
        slots.update(slot, new).map_values(|t: SlotText| disk_text(t))[slot] == disk_text(new),
{
}

// ─── In-memory store ───────────────────────────────────────

/// Keys in strictly ascending order (so no key twice).
pub open spec fn keys_sorted(s: Seq<(String, String)>) -> bool {
    forall|i: int, j: int| 0 <= i < j < s.len() ==> seq_lt(#[trigger] s[i].0@, #[trigger] s[j].0@)
}

/// Some entry has key `k`.
pub open spec fn has_key(s: Seq<(String, String)>, k: Seq<char>) -> bool {
    exists|i: int| 0 <= i < s.len() && #[trigger] s[i].0@ == k
}

/// The position of an entry with key `k`.
pub open spec fn key_index(s: Seq<(String, String)>, k: Seq<char>) -> int {
    choose|i: int| 0 <= i < s.len() && #[trigger] s[i].0@ == k
}

/// The value of the entry with key `k`.
pub open spec fn value_of(s: Seq<(String, String)>, k: Seq<char>) -> Seq<char> {
    s[key_index(s, k)].1@
}

/// The entries as a map from key to value.
pub open spec fn entries_map(s: Seq<(String, String)>) -> Map<Seq<char>, Seq<char>> {
    Map::new(|k: Seq<char>| has_key(s, k), |k: Seq<char>| value_of(s, k))
}

proof fn lemma_entry_found(s: Seq<(String, String)>, i: int)
    requires
        keys_sorted(s),
        0 <= i < s.len(),
    ensures
        has_key(s, s[i].0@),
        value_of(s, s[i].0@) == s[i].1@,
        entries_map(s).contains_key(s[i].0@),
        entries_map(s)[s[i].0@] == s[i].1@,
{
    let k = s[i].0@;
    assert(has_key(s, k));
    let j = key_index(s, k);
    if j < i {
        assert(seq_lt(s[j].0@, s[i].0@));
        lemma_seq_lt_order(k, k, k);
    } else if i < j {
        assert(seq_lt(s[i].0@, s[j].0@));
        lemma_seq_lt_order(k, k, k);
    }
}

/// A string map held in memory, standing in for browser storage in tests:
/// anything written against `RawStorage` (such as `ensure_backup`) runs over
/// it unchanged. Its keys are kept in ascending order.
#[derive(Debug)]
pub struct InMemoryBackend {
    entries: Vec<(String, String)>,
}

impl InMemoryBackend {
    #[verifier::type_invariant]
    spec fn sorted(&self) -> bool {
        keys_sorted(self.entries@)
    }

    /// An empty store.
    pub fn new() -> (b: Self)
        ensures
            b.stored() == Map::<Seq<char>, Seq<char>>::empty(),
    {
        let b = InMemoryBackend { entries: Vec::new() };
        assert(b.stored() =~= Map::<Seq<char>, Seq<char>>::empty());
        b
    }

    /// Start from a given storage value, as if a browser already had it.
    pub fn with_raw_saves(json: &str) -> (b: Self)
        ensures
            b.stored() == Map::<Seq<char>, Seq<char>>::empty().insert(STORAGE_KEY@, json@),
    {
        let mut b = Self::new();
        b.set(STORAGE_KEY, json);
        b
    }

    /// The raw value under `key` (the saves live under `STORAGE_KEY`).
    pub fn raw(&self, key: &str) -> (r: Option<String>)
        ensures
            match r {
                Some(v) => self.stored().contains_key(key@) && self.stored()[key@] == v@,
                None => !self.stored().contains_key(key@),
            },
    {
        proof {
            use_type_invariant(self);
        }
        let mut i: usize = 0;
        while i < self.entries.len()
            invariant
                keys_sorted(self.entries@),
                0 <= i <= self.entries@.len(),
                forall|j: int| 0 <= j < i ==> #[trigger] self.entries@[j].0@ != key@,
            decreases self.entries@.len() - i,
        {
            if str_eq(self.entries[i].0.as_str(), key) {
                proof {
                    lemma_entry_found(self.entries@, i as int);
                }
                return Some(self.entries[i].1.clone());
            }
            i = i + 1;
        }
        None
    }

    /// Every key in storage, sorted.
    pub fn keys(&self) -> (ks: Vec<String>)
        ensures
            forall|i: int, j: int| 0 <= i < j < ks@.len() ==> seq_lt(#[trigger] ks@[i]@, #[trigger] ks@[j]@),
            forall|k: Seq<char>|
                self.stored().contains_key(k) <==> exists|i: int| 0 <= i < ks@.len() && #[trigger] ks@[i]@ == k,
    {
        proof {
            use_type_invariant(self);
        }
        let mut ks: Vec<String> = Vec::new();
        let mut i: usize = 0;
        while i < self.entries.len()
            invariant
                keys_sorted(self.entries@),
                0 <= i <= self.entries@.len(),
                ks@.len() == i,
                forall|j: int| 0 <= j < i ==> #[trigger] ks@[j]@ == self.entries@[j].0@,
            decreases self.entries@.len() - i,
        {
            ks.push(self.entries[i].0.clone());
            i = i + 1;
        }
        proof {
            assert forall|i: int, j: int| 0 <= i < j < ks@.len() implies seq_lt(
                #[trigger] ks@[i]@,
                #[trigger] ks@[j]@,
            ) by {
                assert(seq_lt(self.entries@[i].0@, self.entries@[j].0@));
            }
            assert forall|k: Seq<char>| self.stored().contains_key(k) implies exists|i: int|
                0 <= i < ks@.len() && #[trigger] ks@[i]@ == k by {
                let j = choose|j: int| 0 <= j < self.entries@.len() && #[trigger] self.entries@[j].0@ == k;
                assert(ks@[j]@ == k);
            }
            assert forall|k: Seq<char>| (exists|i: int| 0 <= i < ks@.len() && #[trigger] ks@[i]@ == k) implies self.stored().contains_key(k) by {
                let j = choose|j: int| 0 <= j < ks@.len() && #[trigger] ks@[j]@ == k;
                assert(self.entries@[j].0@ == k);
            }
        }
        ks
    }
}

impl RawStorage for InMemoryBackend {
    closed spec fn stored(&self) -> Map<Seq<char>, Seq<char>> {
        entries_map(self.entries@)
    }

    /// Memory never refuses a write.
    open spec fn takes_writes(&self) -> bool {
        true
    }

    fn get(&self, key: &str) -> (r: Option<String>) {
        self.raw(key)
    }

    /// Always takes the write.
    fn set(&mut self, key: &str, value: &str)
        ensures
            final(self).stored() == old(self).stored().insert(key@, value@),
    {
        proof {
            use_type_invariant(&*self);
        }
        let ghost s = self.entries@;
        let mut p: usize = 0;
        while p < self.entries.len() && str_lt(self.entries[p].0.as_str(), key)
            invariant
                self.entries@ == s,
                keys_sorted(s),
                0 <= p <= s.len(),
                forall|i: int| 0 <= i < p ==> seq_lt(#[trigger] s[i].0@, key@),
            decreases s.len() - p,
        {
            p = p + 1;
        }
        if p < self.entries.len() && str_eq(self.entries[p].0.as_str(), key) {
            let k = self.entries[p].0.clone();
            let e = (k, owned(value));
            proof {
                let t = s.update(p as int, e);
                assert(keys_sorted(t)) by {
                    assert forall|i: int, j: int| 0 <= i < j < t.len() implies seq_lt(
                        #[trigger] t[i].0@,
                        #[trigger] t[j].0@,
                    ) by {
                        assert(seq_lt(s[i].0@, s[j].0@));
                    }
                }
                lemma_replaced(s, p as int, e);
            }
            let mut v: Vec<(String, String)> = Vec::new();
            std::mem::swap(&mut v, &mut self.entries);
            v.set(p, e);
            self.entries = v;
        } else {
            let e = (owned(key), owned(value));
            proof {
                let t = s.insert(p as int, e);
                if p < s.len() {
                    lemma_seq_lt_order(s[p as int].0@, key@, key@);
                    lemma_seq_lt_order(key@, s[p as int].0@, key@);
                }
                assert(keys_sorted(t)) by {
                    assert forall|i: int, j: int| 0 <= i < j < t.len() implies seq_lt(
                        #[trigger] t[i].0@,
                        #[trigger] t[j].0@,
                    ) by {
                        if j < p {
                            assert(seq_lt(s[i].0@, s[j].0@));
                        } else if j == p {
                        } else if i == p {
                            if j - 1 > p {
                                assert(seq_lt(s[p as int].0@, s[j - 1].0@));
                                lemma_seq_lt_order(key@, s[p as int].0@, s[j - 1].0@);
                            }
                        } else if i < p {
                            lemma_seq_lt_order(s[i].0@, key@, s[j - 1].0@);
                            if j - 1 > p {
                                assert(seq_lt(s[p as int].0@, s[j - 1].0@));
                                lemma_seq_lt_order(key@, s[p as int].0@, s[j - 1].0@);
                            }
                        } else {
                            assert(seq_lt(s[i - 1].0@, s[j - 1].0@));
                        }
                    }
                }
                lemma_inserted(s, p as int, e);
            }
            let mut v: Vec<(String, String)> = Vec::new();
            std::mem::swap(&mut v, &mut self.entries);
            v.insert(p, e);
            self.entries = v;
        }
    }
}

proof fn lemma_replaced(s: Seq<(String, String)>, p: int, e: (String, String))
    requires
        keys_sorted(s),
        keys_sorted(s.update(p, e)),
        0 <= p < s.len(),
        s[p].0@ == e.0@,
    ensures
        entries_map(s.update(p, e)) == entries_map(s).insert(e.0@, e.1@),
{
    let t = s.update(p, e);
    assert forall|k: Seq<char>| #[trigger] has_key(t, k) == (has_key(s, k) || k == e.0@) by {
        if has_key(s, k) {
            let i = choose|i: int| 0 <= i < s.len() && #[trigger] s[i].0@ == k;
            assert(t[i].0@ == k);
        }
        if has_key(t, k) {
            let i = choose|i: int| 0 <= i < t.len() && #[trigger] t[i].0@ == k;
            assert(s[i].0@ == k);
        }
        if k == e.0@ {
            assert(t[p].0@ == k);
        }
    }
    assert forall|k: Seq<char>| has_key(t, k) implies #[trigger] value_of(t, k) == (if k == e.0@ {
        e.1@
    } else {
        value_of(s, k)
    }) by {
        let i = choose|i: int| 0 <= i < t.len() && #[trigger] t[i].0@ == k;
        lemma_entry_found(t, i);
        if i != p {
            lemma_entry_found(s, i);
            if k == e.0@ {
                lemma_seq_lt_order(k, k, k);
                if i < p {
                    assert(seq_lt(t[i].0@, t[p].0@));
                } else {
                    assert(seq_lt(t[p].0@, t[i].0@));
                }
            }
        }
    }
    assert(entries_map(t) =~= entries_map(s).insert(e.0@, e.1@));
}

proof fn lemma_inserted(s: Seq<(String, String)>, p: int, e: (String, String))
    requires
        keys_sorted(s),
        keys_sorted(s.insert(p, e)),
        0 <= p <= s.len(),
    ensures
        entries_map(s.insert(p, e)) == entries_map(s).insert(e.0@, e.1@),
{
    let t = s.insert(p, e);
    assert forall|k: Seq<char>| #[trigger] has_key(t, k) == (has_key(s, k) || k == e.0@) by {
        if has_key(s, k) {
            let i = choose|i: int| 0 <= i < s.len() && #[trigger] s[i].0@ == k;
            if i < p {
                assert(t[i].0@ == k);
            } else {
                assert(t[i + 1].0@ == k);
            }
        }
        if has_key(t, k) {
            let i = choose|i: int| 0 <= i < t.len() && #[trigger] t[i].0@ == k;
            if i < p {
                assert(s[i].0@ == k);
            } else if i > p {
                assert(s[i - 1].0@ == k);
            }
        }
        if k == e.0@ {
            assert(t[p].0@ == k);
        }
    }
    assert forall|k: Seq<char>| has_key(t, k) implies #[trigger] value_of(t, k) == (if k == e.0@ {
        e.1@
    } else {
        value_of(s, k)
    }) by {
        let i = choose|i: int| 0 <= i < t.len() && #[trigger] t[i].0@ == k;
        lemma_entry_found(t, i);
        if i != p {
            if i < p {
                lemma_entry_found(s, i);
            } else {
                lemma_entry_found(s, i - 1);
            }
            if k == e.0@ {
                lemma_seq_lt_order(k, k, k);
                if i < p {
                    assert(seq_lt(t[i].0@, t[p].0@));
                } else {
                    assert(seq_lt(t[p].0@, t[i].0@));
                }
            }
        }
    }
    assert(entries_map(t) =~= entries_map(s).insert(e.0@, e.1@));
}

impl Default for InMemoryBackend {
    fn default() -> (b: Self)
        ensures
            b.stored() == Map::<Seq<char>, Seq<char>>::empty(),
    {
        Self::new()
    }
}

} // verus!
