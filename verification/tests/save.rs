use robot_buddy_game::save::{
    decode_saves, decode_saves_raw, encode_saves_raw,
    backup_key, default_color_choice, default_fuel, ensure_backup, unreadable, unreadable_with_name,
    back_up_unreadable, decode_slot, decode_slots, StoredSlot, migrate_band, migrate_seen_intros, write_slot, InMemoryBackend, RawStorage, SlotText, UnreadableSlot, STORAGE_KEY,
};

#[test]
fn backup_key_of_empty_blob_uses_the_fnv_offset() {
    assert_eq!(backup_key("0", ""), "robotBuddySaves.corrupt.0.cbf29ce484222325");
}

#[test]
fn backup_key_hashes_the_blob_bytes() {
    // FNV-1a 64 of "a" is af63dc4c8601ec8c.
    assert_eq!(backup_key("file", "a"), "robotBuddySaves.corrupt.file.af63dc4c8601ec8c");
    // Same bytes, same key; other bytes, other key.
    assert_eq!(backup_key("1", "{oops"), backup_key("1", "{oops"));
    assert_ne!(backup_key("1", "{oops"), backup_key("1", "{oops!"));
    assert_ne!(backup_key("1", "x"), backup_key("2", "x"));
}

#[test]
fn in_memory_store_reads_back_what_was_written() {
    let mut b = InMemoryBackend::default();
    assert_eq!(b.raw("k"), None);
    b.set("k", "v1");
    assert_eq!(b.get("k"), Some("v1".to_string()));
    b.set("k", "v2");
    assert_eq!(b.raw("k"), Some("v2".to_string()));
    b.set("a", "first");
    assert_eq!(b.keys(), vec!["a".to_string(), "k".to_string()]);
}

#[test]
fn keys_come_out_sorted() {
    let mut b = InMemoryBackend::new();
    for k in ["zeta", "alpha", "mid", "alphabet", "Zulu"] {
        b.set(k, "x");
    }
    assert_eq!(b.keys(), vec!["Zulu", "alpha", "alphabet", "mid", "zeta"]);
    assert_eq!(b.now(), 0);
}

#[test]
fn with_raw_saves_seeds_the_storage_key() {
    let b = InMemoryBackend::with_raw_saves("[null,null,null]");
    assert_eq!(b.raw(STORAGE_KEY), Some("[null,null,null]".to_string()));
    assert_eq!(b.keys(), vec![STORAGE_KEY.to_string()]);
}

#[test]
fn an_unreadable_blob_is_backed_up_once() {
    let mut b = InMemoryBackend::with_raw_saves("garbage");
    let u = UnreadableSlot { raw: "{\"name\":\"Ari\"".to_string(), name: None, reason: "eof".to_string() };
    assert!(ensure_backup(&mut b, "1", &u));
    let key = backup_key("1", &u.raw);
    assert_eq!(b.raw(&key), Some(u.raw.clone()));
    let keys = b.keys();
    assert!(ensure_backup(&mut b, "1", &u));
    assert_eq!(b.keys(), keys, "backing up the same bytes again adds nothing");
    assert_eq!(b.raw(STORAGE_KEY), Some("garbage".to_string()));
}

#[test]
fn an_unreadable_slot_keeps_its_text_and_name() {
    let u = unreadable("{\"name\":\"Ari\",\"version\":\"x\"}", "bad version".to_string());
    assert_eq!(u.raw, "{\"name\":\"Ari\",\"version\":\"x\"}");
    assert_eq!(u.name, Some("Ari".to_string()));
    assert_eq!(u.reason, "bad version");
    let not_json = unreadable("{{{", "eof".to_string());
    assert_eq!(not_json.name, None);
    let blank = unreadable("{\"name\":\"  \"}", "r".to_string());
    assert_eq!(blank.name, None, "a blank name is no name");
    let number = unreadable("{\"name\":7}", "r".to_string());
    assert_eq!(number.name, None);
}

#[test]
fn a_found_name_is_kept_unless_blank() {
    assert_eq!(unreadable_with_name("x", "r".to_string(), Some("Noa".to_string())).name, Some("Noa".to_string()));
    assert_eq!(unreadable_with_name("x", "r".to_string(), Some(" \t".to_string())).name, None);
    assert_eq!(unreadable_with_name("x", "r".to_string(), None).name, None);
}

#[test]
fn old_saves_get_a_full_tank_and_the_first_swatch() {
    assert_eq!(default_fuel(), 10);
    assert_eq!(default_color_choice(), "purple");
}

#[test]
fn the_storage_value_splits_into_slot_texts() {
    let d = decode_saves("[null,{\"name\":\"Ari\"}]");
    assert_eq!(d.slots, vec![Some("null".to_string()), Some("{\"name\":\"Ari\"}".to_string()), None]);
    assert!(d.unreadable_file.is_none());
}

#[test]
fn a_value_that_is_not_an_array_is_kept_whole() {
    let d = decode_saves("{\"name\":\"Noa\"}");
    assert_eq!(d.slots, vec![None, None, None]);
    let u = d.unreadable_file.unwrap();
    assert_eq!(u.raw, "{\"name\":\"Noa\"}");
    assert_eq!(u.name, Some("Noa".to_string()));
    assert!(u.reason.starts_with("save file: "));
    let raw = decode_saves_raw("x", Err("boom".to_string()));
    assert_eq!(raw.unreadable_file.unwrap().reason, "save file: boom");
}

#[test]
fn more_than_three_slots_is_an_unreadable_file() {
    let d = decode_saves("[null,null,null,null]");
    assert_eq!(d.slots, vec![Some("null".to_string()), Some("null".to_string()), Some("null".to_string())]);
    let u = d.unreadable_file.unwrap();
    assert_eq!(u.reason, "save file has 4 slots, expected 3");
    assert_eq!(u.raw, "[null,null,null,null]");
}

#[test]
fn slot_texts_go_back_exactly_as_they_came() {
    let slots = vec![None, Some("{\"a\": 1 }".to_string()), Some("{oops".to_string())];
    let s = encode_saves_raw(&slots);
    assert_eq!(s, "[null,{\"a\": 1 },{oops]");
    let back = decode_saves(&encode_saves_raw(&vec![None, Some("{\"a\": 1 }".to_string()), None]));
    assert_eq!(back.slots, vec![Some("null".to_string()), Some("{\"a\": 1 }".to_string()), Some("null".to_string())]);
    assert_eq!(encode_saves_raw(&vec![]), "[]");
}

fn blob(raw: &str) -> UnreadableSlot {
    UnreadableSlot { raw: raw.to_string(), name: None, reason: "test".to_string() }
}

#[test]
fn writing_a_slot_keeps_the_other_two() {
    let mut store = InMemoryBackend::with_raw_saves("[null,{\"name\":\"Ada\"},{oops]");
    let slots = vec![SlotText::Empty, SlotText::Save("{\"name\":\"Ada\"}".to_string()), SlotText::Unreadable(blob("{oops"))];
    let safe = back_up_unreadable(&mut store, &None, &slots);
    assert!(safe);
    assert_eq!(store.raw(&backup_key("2", "{oops")), Some("{oops".to_string()));
    assert!(write_slot(&mut store, slots, safe, 0, SlotText::Save("{\"name\":\"Bo\"}".to_string())));
    assert_eq!(
        store.raw(STORAGE_KEY),
        Some("[{\"name\":\"Bo\"},{\"name\":\"Ada\"},{oops]".to_string())
    );
}

#[test]
fn replacing_an_unreadable_slot_backs_it_up_first() {
    let mut store = InMemoryBackend::with_raw_saves("[null,null,{oops]");
    let slots = vec![SlotText::Empty, SlotText::Empty, SlotText::Unreadable(blob("{oops"))];
    assert!(write_slot(&mut store, slots, true, 2, SlotText::Empty));
    assert_eq!(store.raw(STORAGE_KEY), Some("[null,null,null]".to_string()));
    assert_eq!(store.raw(&backup_key("2", "{oops")), Some("{oops".to_string()));
}

#[test]
fn no_write_without_a_slot_or_when_unsafe() {
    let mut store = InMemoryBackend::with_raw_saves("garbage");
    let slots = vec![SlotText::Empty, SlotText::Empty, SlotText::Empty];
    assert!(!write_slot(&mut store, slots.clone(), true, 3, SlotText::Empty));
    assert!(!write_slot(&mut store, slots, false, 0, SlotText::Empty));
    assert_eq!(store.raw(STORAGE_KEY), Some("garbage".to_string()));
    assert_eq!(store.keys(), vec![STORAGE_KEY.to_string()]);
}

#[test]
fn a_whole_unreadable_file_is_backed_up_before_any_write() {
    let mut store = InMemoryBackend::with_raw_saves("garbage");
    let slots = vec![SlotText::Empty, SlotText::Empty, SlotText::Empty];
    let safe = back_up_unreadable(&mut store, &Some(blob("garbage")), &slots);
    assert!(safe);
    assert_eq!(store.raw(&backup_key("file", "garbage")), Some("garbage".to_string()));
    assert_eq!(store.raw(STORAGE_KEY), Some("garbage".to_string()), "the saves themselves are untouched");
    assert!(write_slot(&mut store, slots, safe, 1, SlotText::Save("{}".to_string())));
    assert_eq!(store.raw(STORAGE_KEY), Some("[null,{},null]".to_string()));
}

/// A save written before intros were tracked still shouldn't replay the
/// reef speech: a paid dive toll (and the map you're standing on) prove
/// you've already been there.
#[test]
fn legacy_save_infers_which_intros_were_already_seen() {
    let seen: Vec<String> = Vec::new();
    assert!(seen.is_empty(), "old saves have no intro list");
    let seen = migrate_seen_intros(seen, &vec!["reef".to_string()], "trench");
    assert!(seen.contains(&"reef".to_string()), "a paid dive toll means the reef intro already played");
    assert!(seen.contains(&"trench".to_string()), "standing in the trench means its intro already played");
    assert_eq!(seen, vec!["reef".to_string(), "trench".to_string()]);
}

#[test]
fn intro_inference_adds_nothing_twice_and_keeps_a_real_list() {
    let paid = vec!["reef".to_string(), "reef".to_string()];
    assert_eq!(migrate_seen_intros(Vec::new(), &paid, "reef"), vec!["reef".to_string()]);
    let kept = vec!["space".to_string()];
    assert_eq!(migrate_seen_intros(kept.clone(), &paid, "trench"), kept);
}

#[test]
fn legacy_band_moves_into_a_fresh_profile() {
    assert_eq!(migrate_band(Some(4), 1), 4);
    assert_eq!(migrate_band(Some(4), 6), 6, "a profile that moved on keeps its band");
    assert_eq!(migrate_band(Some(1), 1), 1);
    assert_eq!(migrate_band(None, 3), 3);
}

#[test]
fn a_null_slot_reads_as_empty() {
    let slot: StoredSlot<u32> = decode_slot(" null\n", Err("unused".to_string()));
    assert!(matches!(slot, StoredSlot::Empty));
    let slot: StoredSlot<u32> = decode_slot("nul", Err("eof".to_string()));
    assert!(matches!(slot, StoredSlot::Unreadable(_)));
}

#[test]
fn a_slot_is_the_record_or_kept_as_found() {
    let slot = decode_slot("{\"v\":1}", Ok(7u32));
    assert!(matches!(slot, StoredSlot::Save(7)));
    match decode_slot::<u32>("{\"name\":\"Ari\"}", Err("missing field `version`".to_string())) {
        StoredSlot::Unreadable(u) => {
            assert_eq!(u.raw, "{\"name\":\"Ari\"}");
            assert_eq!(u.name, Some("Ari".to_string()));
            assert_eq!(u.reason, "missing field `version`");
        }
        _ => panic!("an unparsable slot is kept as found"),
    }
}

#[test]
fn one_bad_slot_never_takes_the_others_down() {
    let json = "[null,{\"name\":\"Ari\"},null]";
    let raw = decode_saves(json);
    let parsed: Vec<Result<u32, String>> =
        vec![Err("null".to_string()), Err("not a save".to_string()), Err("null".to_string())];
    let d = decode_slots(raw, parsed);
    assert!(d.unreadable_file.is_none());
    assert!(matches!(d.slots[0], StoredSlot::Empty));
    assert!(matches!(d.slots[2], StoredSlot::Empty));
    match &d.slots[1] {
        StoredSlot::Unreadable(u) => {
            assert_eq!(u.raw, "{\"name\":\"Ari\"}");
            assert_eq!(u.name, Some("Ari".to_string()));
        }
        _ => panic!("slot 1 is unreadable"),
    }
}

#[test]
fn a_short_array_leaves_the_missing_slots_empty() {
    let d = decode_slots(decode_saves("[{\"v\":1}]"), vec![Ok(1u32), Ok(2), Ok(3)]);
    assert!(matches!(d.slots[0], StoredSlot::Save(1)));
    assert!(matches!(d.slots[1], StoredSlot::Empty));
    assert!(matches!(d.slots[2], StoredSlot::Empty));
    let d = decode_slots(decode_saves("not json"), vec![Ok(1u32), Ok(2), Ok(3)]);
    assert!(d.slots.iter().all(|s| matches!(s, StoredSlot::Empty)));
    assert_eq!(d.unreadable_file.map(|u| u.raw), Some("not json".to_string()));
}
