use smmdb_client::emu::{decode_hex, encode_hex, find_save_data_ids, listing_name, EmuSave, EmuType, HexError, SMM2_TITLE_ID};
use smmdb_client::save::{self, Save};
use smmdb_client::save_data::SaveData;
use smmdb_client::container::SaveContainer;

#[test]
fn hex_round_trip() {
    assert_eq!(decode_hex("01009B90006DC000"), Ok(vec![0x01, 0x00, 0x9b, 0x90, 0x00, 0x6d, 0xc0, 0x00]));
    assert_eq!(encode_hex(&[0x01, 0x00, 0x9b, 0xff]), "01009bff");
    assert_eq!(encode_hex(&[]), "");
    assert_eq!(decode_hex(""), Ok(vec![]));
}

#[test]
fn bad_hex_is_refused() {
    assert_eq!(decode_hex("abc"), Err(HexError));
    assert_eq!(decode_hex("zz"), Err(HexError));
}

fn index_with(entries: &[([u8; 8], [u8; 8])]) -> Vec<u8> {
    let mut buf = vec![0u8; 12];
    for (game, save) in entries {
        let mut entry = vec![0u8; 140];
        entry[12..20].copy_from_slice(game);
        entry[76..84].copy_from_slice(save);
        buf.extend(entry);
    }
    buf
}

#[test]
fn ryujinx_index_lists_matching_saves() {
    let mut game = decode_hex(SMM2_TITLE_ID).unwrap();
    game.reverse();
    let g: [u8; 8] = game.clone().try_into().unwrap();
    let other = [1u8; 8];
    let buf = index_with(&[
        (g, [0x10, 0, 0, 0, 0, 0, 0, 0]),
        (other, [0x20, 0, 0, 0, 0, 0, 0, 0]),
        (g, [0x01, 0x02, 0, 0, 0, 0, 0, 0x80]),
    ]);
    let ids = find_save_data_ids(&buf, &game);
    assert_eq!(ids, vec!["0000000000000010".to_string(), "8000000000000201".to_string()]);
    assert!(find_save_data_ids(&vec![0u8; 5], &game).is_empty());
}

#[test]
fn save_records() {
    let e = EmuSave::new("[Yuzu] /data".to_string(), "/data/save".to_string(), EmuType::Yuzu);
    assert_eq!(e.get_display_name(), "[Yuzu] /data");
    assert_eq!(e.get_location(), "/data/save");
    assert_eq!(e.label(), "[Yuzu] /data/save");
    assert_eq!(listing_name(EmuType::Ryujinx, "/r"), "[Ryujinx] /r");
    let s = Save::new("/x".to_string(), save::EmuType::Ryujinx);
    assert_eq!(s.get_location(), "/x");
    let d = SaveData::new(SaveContainer::open("/y".to_string(), vec![None]), "/y".to_string());
    assert_eq!(d.get_location(), "/y");
}
