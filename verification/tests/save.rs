use std::collections::HashMap;

use bevy_support_misc::save::{
    fresh_save_file_name, max_key, random_string, seal, unseal, CurrentSave, DeleteSave, LoadGame, SaveConfig,
    SaveError, SaveGame, ENCR_KEY, SAVE_NAME_CHARSET, SAVE_NAME_LEN,
};

fn config(slots: &[(u32, &str)], last: u32) -> SaveConfig {
    let mut saves = HashMap::new();
    for (id, name) in slots {
        saves.insert(*id, name.to_string());
    }
    SaveConfig::from_parts(saves, "saves".to_string(), last)
}

#[test]
fn default_config_is_empty() {
    let cfg = SaveConfig::default();
    assert!(cfg.saves().is_empty());
    assert_eq!(cfg.save_dir(), "");
    assert_eq!(cfg.last_saved(), 0);
    assert_eq!(cfg.next_id(), 1);
}

#[test]
fn max_key_of_slots() {
    assert_eq!(max_key(&HashMap::new()), None);
    let cfg = config(&[(3, "a"), (9, "b"), (4, "c")], 9);
    assert_eq!(max_key(cfg.saves()), Some(9));
}

#[test]
fn next_id_is_one_above_the_largest() {
    let cfg = config(&[(2, "a"), (7, "b")], 7);
    assert_eq!(cfg.next_id(), 8);
    assert!(cfg.has_free_id());
    let full = config(&[(u32::MAX, "z")], 0);
    assert!(!full.has_free_id());
}

#[test]
fn new_save_gets_fresh_slot_and_becomes_current() {
    let mut cfg = config(&[(1, "a.dat"), (5, "b.dat")], 1);
    let mut current = CurrentSave(1);
    let path = cfg.save_path(&SaveGame(0)).expect("a new slot always has a path");
    assert_eq!(path.dir.as_deref(), Some("saves"));
    let name = path.name.clone();
    let changed = cfg.finish_save(&mut current, &SaveGame(0), name.clone());
    assert!(changed.is_some());
    assert_eq!(current.0, 6);
    assert_eq!(cfg.last_saved(), 6);
    assert_eq!(cfg.slot(6), Some(name.clone()));
    // what was saved is what is loaded
    let load = cfg.load_path(&LoadGame(6)).unwrap();
    assert_eq!(load.name, name);
    assert_eq!(load.dir.as_deref(), Some("saves"));
}

#[test]
fn first_save_gets_slot_one() {
    let mut cfg = SaveConfig::default();
    let mut current = CurrentSave(0);
    cfg.finish_save(&mut current, &SaveGame(0), "x.dat".to_string());
    assert_eq!(current.0, 1);
    assert_eq!(cfg.slot(1), Some("x.dat".to_string()));
}

#[test]
fn saving_an_existing_slot_keeps_the_table() {
    let mut cfg = config(&[(1, "a.dat"), (2, "b.dat")], 1);
    let mut current = CurrentSave(0);
    let path = cfg.save_path(&SaveGame(2)).unwrap();
    assert_eq!(path.name, "b.dat");
    let changed = cfg.finish_save(&mut current, &SaveGame(2), path.name);
    assert!(changed.is_none());
    assert_eq!(current.0, 2);
    assert_eq!(cfg.last_saved(), 2);
    assert_eq!(cfg.saves().len(), 2);
}

#[test]
fn unknown_slots_have_no_path() {
    let cfg = config(&[(1, "a.dat")], 1);
    assert!(cfg.save_path(&SaveGame(4)).is_none());
    assert!(cfg.load_path(&LoadGame(4)).is_none());
    assert!(cfg.delete_path(&DeleteSave(4)).is_none());
    let stale = config(&[(1, "a.dat")], 3);
    assert!(stale.recent_path().is_none());
}

#[test]
fn load_makes_slot_current() {
    let cfg = config(&[(1, "a.dat"), (2, "b.dat")], 2);
    let mut current = CurrentSave(0);
    let recent = cfg.recent_path().unwrap();
    assert_eq!(recent.name, "b.dat");
    cfg.finish_load_recent(&mut current);
    assert_eq!(current.0, 2);
    cfg.finish_load(&mut current, &LoadGame(1));
    assert_eq!(current.0, 1);
}

#[test]
fn delete_removes_slot_and_clears_last() {
    let mut cfg = config(&[(1, "a.dat"), (2, "b.dat")], 2);
    let mut current = CurrentSave(2);
    let path = cfg.delete_path(&DeleteSave(2)).unwrap();
    assert_eq!(path.name, "b.dat");
    assert!(path.dir.is_none());
    cfg.finish_delete(&mut current, &DeleteSave(2));
    assert_eq!(current.0, 0);
    assert_eq!(cfg.last_saved(), 0);
    assert!(cfg.slot(2).is_none());
    assert!(cfg.load_path(&LoadGame(2)).is_none());
    assert_eq!(cfg.slot(1), Some("a.dat".to_string()));
}

#[test]
fn delete_of_other_slot_keeps_last() {
    let mut cfg = config(&[(1, "a.dat"), (2, "b.dat")], 2);
    let mut current = CurrentSave(2);
    cfg.finish_delete(&mut current, &DeleteSave(1));
    assert_eq!(cfg.last_saved(), 2);
    assert_eq!(current.0, 0);
}

#[test]
fn random_names_use_the_charset() {
    for _ in 0..20 {
        let s = random_string();
        assert_eq!(s.chars().count(), SAVE_NAME_LEN);
        assert!(s.chars().all(|c| SAVE_NAME_CHARSET.contains(c)));
        let f = fresh_save_file_name();
        assert_eq!(f.len(), SAVE_NAME_LEN + 4);
        assert!(f.ends_with(".dat"));
        assert!(f[..SAVE_NAME_LEN].chars().all(|c| c.is_ascii_alphanumeric()));
    }
}

#[test]
fn sealed_data_opens_to_itself() {
    let data = b"level=3;gold=120".to_vec();
    let sealed = seal(&data, ENCR_KEY).expect("sealing works");
    assert_ne!(sealed, data);
    assert_eq!(unseal(&sealed, ENCR_KEY), Ok(data.clone()));
    let empty = seal(&[], ENCR_KEY).unwrap();
    assert_eq!(unseal(&empty, ENCR_KEY), Ok(Vec::new()));
}

#[test]
fn garbage_does_not_open() {
    assert_eq!(unseal(b"not a sealed blob", ENCR_KEY), Err(SaveError::Decrypt));
    let mut sealed = seal(b"data", ENCR_KEY).unwrap();
    let last = sealed.len() - 1;
    sealed[last] ^= 0xff;
    assert_eq!(unseal(&sealed, ENCR_KEY), Err(SaveError::Decrypt));
}

#[test]
fn blobs_open_only_with_their_password() {
    let sealed = seal(b"progress", "secret").unwrap();
    assert_eq!(unseal(&sealed, "secret"), Ok(b"progress".to_vec()));
    assert_eq!(unseal(&sealed, ENCR_KEY), Err(SaveError::Decrypt));
}
