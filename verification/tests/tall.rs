use avtalebok::tall::skriv_desimal;
use avtalebok::tall::skriv_heltall;
use avtalebok::tall::tolk_i32;
use avtalebok::tall::tolk_u8;

#[test]
fn tolk_i32_leser_tall_med_og_uten_fortegn() {
    assert_eq!(tolk_i32("0"), Some(0));
    assert_eq!(tolk_i32("45"), Some(45));
    assert_eq!(tolk_i32("+45"), Some(45));
    assert_eq!(tolk_i32("-45"), Some(-45));
    assert_eq!(tolk_i32("-0"), Some(0));
    assert_eq!(tolk_i32("007"), Some(7));
}

#[test]
fn tolk_i32_holder_grensene() {
    assert_eq!(tolk_i32("2147483647"), Some(i32::MAX));
    assert_eq!(tolk_i32("-2147483648"), Some(i32::MIN));
    assert_eq!(tolk_i32("2147483648"), None);
    assert_eq!(tolk_i32("-2147483649"), None);
    assert_eq!(tolk_i32("00000000000000000000000000000012"), Some(12));
    assert_eq!(tolk_i32("99999999999999999999999999999999"), None);
}

#[test]
fn tolk_i32_avviser_det_som_ikke_er_tall() {
    for tekst in ["", "+", "-", "+-5", "--5", " 5", "5 ", "1_000", "1.5", "abc", "12a", "٣"] {
        assert_eq!(tolk_i32(tekst), None, "{:?}", tekst);
    }
}

#[test]
fn tolk_i32_er_som_standardbibliotekets() {
    for tekst in ["", "+", "-", "0", "-0", "+0", "12", "-12", "+12", "2147483647", "2147483648",
        "-2147483648", "-2147483649", "1e3", "0x10", " 1", "1\n", "１２"]
    {
        assert_eq!(tolk_i32(tekst), tekst.parse::<i32>().ok(), "{:?}", tekst);
    }
}

#[test]
fn tolk_u8_er_som_standardbibliotekets() {
    for tekst in ["", "+", "-", "0", "-0", "+0", "1", "5", "+5", "-5", "255", "256", "0255",
        "00000256", "a", "1 ", "٣"]
    {
        assert_eq!(tolk_u8(tekst), tekst.parse::<u8>().ok(), "{:?}", tekst);
    }
}

#[test]
fn tolk_u8_tar_ikke_minustegn() {
    assert_eq!(tolk_u8("-0"), None);
    assert_eq!(tolk_u8("-1"), None);
    assert_eq!(tolk_u8("255"), Some(255));
    assert_eq!(tolk_u8("256"), None);
}

#[test]
fn skriv_desimal_skriver_uten_ledende_nuller() {
    for (tall, ventet) in [(0u64, "0"), (7, "7"), (10, "10"), (1234567890, "1234567890"),
        (u64::MAX, "18446744073709551615")]
    {
        let mut ut = String::from("x");
        skriv_desimal(&mut ut, tall);
        assert_eq!(ut, format!("x{}", ventet));
    }
}

#[test]
fn skriv_heltall_setter_minus_foran_negative() {
    for tall in [0i64, 1, -1, 45, -45, i64::MAX, i64::MIN, i32::MIN as i64] {
        let mut ut = String::new();
        skriv_heltall(&mut ut, tall);
        assert_eq!(ut, format!("{}", tall));
    }
}

#[test]
fn tolk_er_som_standardbibliotekets_paa_mange_tekster() {
    let tegn: Vec<char> = "+-0123456789 a".chars().collect();
    let mut tilstand: u64 = 0x2545F4914F6CDD1D;
    for _ in 0..20000 {
        let mut tekst = String::new();
        tilstand ^= tilstand << 13;
        tilstand ^= tilstand >> 7;
        tilstand ^= tilstand << 17;
        let lengde = (tilstand % 13) as usize;
        for _ in 0..lengde {
            tilstand ^= tilstand << 13;
            tilstand ^= tilstand >> 7;
            tilstand ^= tilstand << 17;
            let valg = (tilstand % 40) as usize;
            tekst.push(tegn[if valg < tegn.len() { valg } else { 2 + valg % 10 }]);
        }
        assert_eq!(tolk_i32(&tekst), tekst.parse::<i32>().ok(), "{:?}", tekst);
        assert_eq!(tolk_u8(&tekst), tekst.parse::<u8>().ok(), "{:?}", tekst);
    }
}
