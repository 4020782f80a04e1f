use lightning_liquidity::jit_channel::scid_utils;
use lightning_liquidity::jit_channel::scid_utils::ShortChannelIdError;
use lightning_liquidity::lsps0::msgs::RequestId;
use lightning_liquidity::text;
use lightning_liquidity::utils;
use lightning_liquidity::utils::PubkeyError;

const NODE: &str = "027100442c3b79f606f80f322d98d499eefcb060599efc5d4ecb00209c2cb54190";

#[test]
fn utils_parses_human_readable_scid_correctly() {
    let block = 140;
    let tx_index = 123;
    let vout = 22;

    let human_readable_scid = format!("{}x{}x{}", block, tx_index, vout);

    let scid = utils::scid_from_human_readable_string(&human_readable_scid).unwrap();

    assert_eq!(utils::block_from_scid(&scid), block);
    assert_eq!(utils::tx_index_from_scid(&scid), tx_index);
    assert_eq!(utils::vout_from_scid(&scid), vout);
}

#[test]
fn scid_utils_parses_human_readable_scid_correctly() {
    let block = 140;
    let tx_index = 123;
    let vout = 22;

    let human_readable_scid = format!("{}x{}x{}", block, tx_index, vout);

    let scid = scid_utils::scid_from_human_readable_string(&human_readable_scid).unwrap();

    assert_eq!(scid_utils::block_from_scid(&scid), block);
    assert_eq!(scid_utils::tx_index_from_scid(&scid), tx_index);
    assert_eq!(scid_utils::vout_from_scid(&scid), vout);
}

#[test]
fn packs_the_parts_of_a_scid() {
    assert_eq!(utils::scid_from_human_readable_string("1x2x3"), Ok((1 << 40) | (2 << 16) | 3));
    assert_eq!(utils::scid_from_human_readable_string("0x0x0"), Ok(0));
    assert_eq!(
        utils::scid_from_human_readable_string("16777215x16777215x65535"),
        Ok(u64::MAX)
    );
}

#[test]
fn ignores_what_follows_the_output_index() {
    assert_eq!(
        utils::scid_from_human_readable_string("1x2x3xfoo"),
        utils::scid_from_human_readable_string("1x2x3")
    );
    assert_eq!(
        utils::scid_from_human_readable_string("+1x2x3"),
        utils::scid_from_human_readable_string("1x2x3")
    );
}

#[test]
fn refuses_malformed_scids() {
    for text in ["", "1", "1x2", "ax2x3", "1xx3", "1x2x-3", "18446744073709551616x0x0"] {
        assert_eq!(utils::scid_from_human_readable_string(text), Err(()));
        assert!(matches!(
            scid_utils::scid_from_human_readable_string(text),
            Err(ShortChannelIdError::InvalidScid)
        ));
    }
}

#[test]
fn scids_survive_their_human_readable_form() {
    for scid in [0u64, 1, 65535, 65536, 1 << 40, 0x0123_4567_89ab_cdef, u64::MAX] {
        let text = utils::scid_to_string(scid);
        assert_eq!(utils::scid_from_human_readable_string(&text), Ok(scid));
    }
    assert_eq!(utils::scid_to_string((140 << 40) | (123 << 16) | 22), "140x123x22");
}

#[test]
fn hex_survives_a_round_trip() {
    let bytes = [0x00u8, 0x7f, 0x80, 0xff, 0x1a];
    assert_eq!(utils::hex_str(&bytes), "007f80ff1a");
    assert_eq!(utils::to_vec("007f80ff1a"), Some(bytes.to_vec()));
    assert_eq!(utils::to_vec("007F80FF1A"), Some(bytes.to_vec()));
    assert_eq!(utils::to_vec("0g"), None);
}

#[test]
fn an_odd_hex_digit_is_dropped() {
    assert_eq!(utils::to_vec("abc"), Some(vec![0xab]));
    assert_eq!(utils::to_vec(""), Some(vec![]));
}

#[test]
fn parses_public_keys() {
    let key = utils::parse_pubkey(NODE).unwrap();
    assert_eq!(utils::hex_str(&key.bytes), NODE);
    assert_eq!(utils::to_compressed_pubkey(NODE), Some(key));
}

#[test]
fn refuses_what_is_no_public_key() {
    // No point of the curve has this first coordinate.
    let off_curve = "020000000000000000000000000000000000000000000000000000000000000005";
    assert!(matches!(utils::parse_pubkey(off_curve), Err(PubkeyError::Unparsable)));
    assert!(matches!(utils::parse_pubkey("02"), Err(PubkeyError::Unparsable)));
    assert!(matches!(utils::parse_pubkey(&"zz".repeat(33)), Err(PubkeyError::Unparsable)));
    assert!(matches!(utils::parse_pubkey(&"00".repeat(33)), Err(PubkeyError::Unparsable)));
    assert_eq!(utils::to_compressed_pubkey("02"), None);
}

#[test]
fn a_public_key_has_33_bytes() {
    assert_eq!(utils::to_compressed_pubkey(&format!("{}ff", NODE)), None);
    assert_eq!(utils::to_compressed_pubkey(&NODE[2..]), None);
    assert_eq!(utils::to_compressed_pubkey(""), None);
}

#[test]
fn ids_are_made_of_random_bytes() {
    let mut entropy = [0u8; 32];
    entropy[0] = 0xab;
    entropy[15] = 0x01;
    entropy[16] = 0xff;
    assert_eq!(
        utils::generate_request_id(&entropy),
        RequestId("ab000000000000000000000000000001".to_string())
    );
    assert_eq!(
        utils::generate_channel_id(&entropy),
        0xab00_0000_0000_0000_0000_0000_0000_0001
    );
}

#[test]
fn numbers_in_decimal_digits() {
    assert_eq!(text::u64_to_string(0), "0");
    assert_eq!(text::u64_to_string(u64::MAX), u64::MAX.to_string());
    assert_eq!(text::i32_to_string(0), "0");
    assert_eq!(text::i32_to_string(i32::MIN), i32::MIN.to_string());
    assert_eq!(text::i32_to_string(-32700), "-32700");
    assert_eq!(text::parse_u64("+7"), Some(7));
    assert_eq!(text::parse_u64("007"), Some(7));
    assert_eq!(text::parse_u64("18446744073709551615"), Some(u64::MAX));
    assert_eq!(text::parse_u64("18446744073709551616"), None);
    assert_eq!(text::parse_u64("-7"), None);
    assert_eq!(text::parse_u64(""), None);
    assert_eq!(text::parse_u64("+"), None);
}
