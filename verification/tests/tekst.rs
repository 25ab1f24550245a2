use avtalebok::tekst::blank;
use avtalebok::tekst::finnes_i;
use avtalebok::tekst::fjern_linjeskift;
use avtalebok::tekst::tegn;
use avtalebok::tekst::trim;

#[test]
fn tegn_gir_tegnene_i_rekkefolge() {
    assert_eq!(tegn(""), Vec::<char>::new());
    assert_eq!(tegn("abc"), vec!['a', 'b', 'c']);
    assert_eq!(tegn("på å"), vec!['p', 'å', ' ', 'å']);
}

#[test]
fn blank_er_som_standardbibliotekets_for_alle_tegn() {
    for kode in 0u32..=0x10FFFF {
        if let Some(c) = char::from_u32(kode) {
            assert_eq!(blank(c), c.is_whitespace(), "U+{:04X}", kode);
        }
    }
}

#[test]
fn blank_kjenner_de_vanlige() {
    for c in [' ', '\t', '\n', '\r', '\u{0B}', '\u{0C}', '\u{85}', '\u{A0}', '\u{3000}'] {
        assert!(blank(c), "{:?}", c);
    }
    for c in ['a', '0', '_', '\u{0}', '\u{1F}', '\u{200B}', '\u{180E}', '\u{FEFF}'] {
        assert!(!blank(c), "{:?}", c);
    }
}

#[test]
fn trim_fjerner_blanke_i_begge_ender() {
    assert_eq!(trim(""), "");
    assert_eq!(trim("   "), "");
    assert_eq!(trim("a"), "a");
    assert_eq!(trim("  a b  "), "a b");
    assert_eq!(trim("45\n"), "45");
    assert_eq!(trim("\t 45 \r\n"), "45");
    assert_eq!(trim("\u{A0}å\u{2003}"), "å");
}

#[test]
fn trim_er_som_standardbibliotekets() {
    for tekst in ["", " ", "\n", "a", " a", "a ", " a ", "a b", "  a  b  ", "\r\n12\r\n",
        "\u{85}x\u{85}", "\u{200B}x\u{200B}", " \u{1680}æ ø å\u{205F} ", "\u{3000}\u{3000}"]
    {
        assert_eq!(trim(tekst), tekst.trim(), "{:?}", tekst);
    }
}

#[test]
fn fjern_linjeskift_tar_ett_linjeskift_i_enden() {
    assert_eq!(fjern_linjeskift("Tannlege\n"), "Tannlege");
    assert_eq!(fjern_linjeskift("Tannlege"), "Tannlege");
    assert_eq!(fjern_linjeskift("\n"), "");
    assert_eq!(fjern_linjeskift(""), "");
    assert_eq!(fjern_linjeskift("a\n\n"), "a\n");
    assert_eq!(fjern_linjeskift("a\r\n"), "a\r");
    assert_eq!(fjern_linjeskift("  a  \n"), "  a  ");
    assert_eq!(fjern_linjeskift("\na"), "\na");
}

#[test]
fn finnes_i_finner_sammenhengende_tegn() {
    assert!(finnes_i("Team Sync", "Sync"));
    assert!(finnes_i("Team Sync", "Team"));
    assert!(finnes_i("Team Sync", "m S"));
    assert!(finnes_i("Team Sync", "Team Sync"));
    assert!(finnes_i("Team Sync", ""));
    assert!(finnes_i("", ""));
    assert!(!finnes_i("Team Sync", "sync"));
    assert!(!finnes_i("Team Sync", "TS"));
    assert!(!finnes_i("Team Sync", "Team Sync "));
    assert!(!finnes_i("", "a"));
    assert!(finnes_i("aab", "ab"));
    assert!(finnes_i("møte på kontoret", "på"));
}

#[test]
fn finnes_i_er_som_standardbibliotekets() {
    let hoyer = ["", "a", "ab", "aab", "abab", "abcabd", "lunch", "Team Sync", "æøå æøå"];
    let naaler = ["", "a", "b", "ab", "ba", "abd", "abc", "c", "sync", "Sync", "øå ", "å æ", "æøå æøå!"];
    for hoy in hoyer {
        for naal in naaler {
            assert_eq!(finnes_i(hoy, naal), hoy.contains(naal), "{:?} {:?}", hoy, naal);
        }
    }
}
