use avtalebok::avtale::print_avtaler;
use avtalebok::avtale::skjekk_samme_dato;
use avtalebok::avtale::sok_avtaler;
use avtalebok::avtale::Avtale;
use avtalebok::tid::Dato;
use avtalebok::tid::Tidspunkt;

fn avtale(tittel: &str, sted: &str, varighet: i32, start: (i32, u32, u32, u32, u32)) -> Avtale {
    Avtale {
        tittel: tittel.to_string(),
        sted: sted.to_string(),
        varighet,
        starttidspunkt: Tidspunkt::ny(start.0, start.1, start.2, start.3, start.4, 0).unwrap(),
    }
}

fn titler(liste: &Vec<Avtale>) -> Vec<&str> {
    liste.iter().map(|a| a.tittel.as_str()).collect()
}

#[test]
fn to_string_viser_alle_feltene() {
    let a = avtale("Tannlege", "Storgata 1", 45, (2023, 5, 17, 12, 30));
    assert_eq!(
        a.to_string(),
        "Tittle: Tannlege, Sted: Storgata 1, varighet: 45, Starttidspunkt: 2023-05-17 12:30:00"
    );
}

#[test]
fn to_string_viser_tomme_felt_og_negativ_varighet() {
    let a = avtale("", "", -30, (2002, 12, 2, 9, 5));
    assert_eq!(
        a.to_string(),
        "Tittle: , Sted: , varighet: -30, Starttidspunkt: 2002-12-02 09:05:00"
    );
    let a = avtale(" x ", "y", i32::MIN, (2002, 12, 2, 9, 5));
    assert_eq!(
        a.to_string(),
        "Tittle:  x , Sted: y, varighet: -2147483648, Starttidspunkt: 2002-12-02 09:05:00"
    );
    let a = avtale("x", "y", i32::MAX, (2002, 12, 2, 9, 5));
    assert_eq!(
        a.to_string(),
        "Tittle: x, Sted: y, varighet: 2147483647, Starttidspunkt: 2002-12-02 09:05:00"
    );
}

#[test]
fn clone_gir_en_lik_avtale() {
    let a = avtale("Tannlege", "Storgata 1", 45, (2023, 5, 17, 12, 30));
    let b = a.clone();
    assert_eq!(a, b);
    assert_eq!(b.tittel, "Tannlege");
    assert_eq!(b.sted, "Storgata 1");
    assert_eq!(b.varighet, 45);
    assert_eq!(b.starttidspunkt, a.starttidspunkt);
}

#[test]
fn print_avtaler_gir_en_linje_for_hver_avtale() {
    assert_eq!(print_avtaler(&vec![]), "");
    let liste = vec![
        avtale("Tannlege", "Storgata 1", 45, (2023, 5, 17, 12, 30)),
        avtale("lunch", "Kantina", 30, (2023, 5, 18, 11, 0)),
    ];
    assert_eq!(
        print_avtaler(&liste),
        "Index:0 Avtale: Tittle: Tannlege, Sted: Storgata 1, varighet: 45, Starttidspunkt: 2023-05-17 12:30:00\n\
         Index:1 Avtale: Tittle: lunch, Sted: Kantina, varighet: 30, Starttidspunkt: 2023-05-18 11:00:00\n"
    );
}

#[test]
fn print_avtaler_teller_videre_forbi_ni() {
    let mut liste = Vec::new();
    for i in 0..12 {
        liste.push(avtale("a", "b", i, (2023, 5, 17, 12, 30)));
    }
    let tekst = print_avtaler(&liste);
    let linjer: Vec<&str> = tekst.lines().collect();
    assert_eq!(linjer.len(), 12);
    assert_eq!(linjer[9], "Index:9 Avtale: Tittle: a, Sted: b, varighet: 9, Starttidspunkt: 2023-05-17 12:30:00");
    assert_eq!(linjer[10], "Index:10 Avtale: Tittle: a, Sted: b, varighet: 10, Starttidspunkt: 2023-05-17 12:30:00");
    assert_eq!(linjer[11], "Index:11 Avtale: Tittle: a, Sted: b, varighet: 11, Starttidspunkt: 2023-05-17 12:30:00");
    assert!(tekst.ends_with('\n'));
}

#[test]
fn skjekk_samme_dato_gir_akkurat_dagens_avtaler() {
    let liste = vec![
        avtale("a", "x", 1, (2023, 5, 17, 8, 0)),
        avtale("b", "x", 2, (2023, 5, 18, 8, 0)),
        avtale("c", "x", 3, (2023, 5, 17, 23, 59)),
        avtale("d", "x", 4, (2022, 5, 17, 8, 0)),
        avtale("e", "x", 5, (2023, 6, 17, 8, 0)),
        avtale("f", "x", 6, (2023, 5, 17, 0, 0)),
    ];
    let d1 = Dato { aar: 2023, maaned: 5, dag: 17 };
    let d2 = Dato { aar: 2023, maaned: 5, dag: 18 };
    let paa_d1 = skjekk_samme_dato(&liste, &d1);
    assert_eq!(titler(&paa_d1), vec!["a", "c", "f"]);
    assert_eq!(paa_d1[0], liste[0]);
    assert_eq!(paa_d1[1], liste[2]);
    assert_eq!(paa_d1[2], liste[5]);
    assert_eq!(titler(&skjekk_samme_dato(&liste, &d2)), vec!["b"]);
    assert_eq!(liste.len(), 6);
}

#[test]
fn skjekk_samme_dato_gir_tom_liste_uten_treff() {
    let liste = vec![avtale("a", "x", 1, (2023, 5, 17, 8, 0))];
    assert!(skjekk_samme_dato(&liste, &Dato { aar: 2023, maaned: 5, dag: 16 }).is_empty());
    assert!(skjekk_samme_dato(&liste, &Dato { aar: 2023, maaned: 2, dag: 30 }).is_empty());
    assert!(skjekk_samme_dato(&vec![], &Dato { aar: 2023, maaned: 5, dag: 17 }).is_empty());
}

#[test]
fn skjekk_samme_dato_beholder_like_avtaler() {
    let liste = vec![
        avtale("a", "x", 1, (2023, 5, 17, 8, 0)),
        avtale("a", "x", 1, (2023, 5, 17, 8, 0)),
    ];
    let ut = skjekk_samme_dato(&liste, &Dato { aar: 2023, maaned: 5, dag: 17 });
    assert_eq!(ut, liste);
}

#[test]
fn sok_avtaler_finner_ikke_store_bokstaver_i_tittelen() {
    let liste = vec![
        avtale("Team Sync", "x", 1, (2023, 5, 17, 8, 0)),
        avtale("lunch", "x", 2, (2023, 5, 17, 12, 0)),
    ];
    assert!(sok_avtaler(&liste, "sync").is_empty());
    assert!(sok_avtaler(&liste, "Sync").is_empty());
    assert!(sok_avtaler(&liste, "SYNC").is_empty());
    assert_eq!(titler(&sok_avtaler(&liste, "lunch")), vec!["lunch"]);
    assert_eq!(titler(&sok_avtaler(&liste, "unc")), vec!["lunch"]);
    assert_eq!(titler(&sok_avtaler(&liste, "eam")), vec!["Team Sync"]);
}

#[test]
fn sok_avtaler_gjor_sokeordet_til_smaa_bokstaver() {
    let liste = vec![
        avtale("team sync", "x", 1, (2023, 5, 17, 8, 0)),
        avtale("lunch", "x", 2, (2023, 5, 17, 12, 0)),
        avtale("møte på ås", "x", 3, (2023, 5, 17, 13, 0)),
    ];
    assert_eq!(titler(&sok_avtaler(&liste, "SYNC")), vec!["team sync"]);
    assert_eq!(titler(&sok_avtaler(&liste, "Lunch")), vec!["lunch"]);
    assert_eq!(titler(&sok_avtaler(&liste, "PÅ ÅS")), vec!["møte på ås"]);
    assert_eq!(titler(&sok_avtaler(&liste, "heiSann")), Vec::<&str>::new());
}

#[test]
fn sok_avtaler_med_tomt_sokeord_gir_hele_listen() {
    let liste = vec![
        avtale("Team Sync", "x", 1, (2023, 5, 17, 8, 0)),
        avtale("", "x", 2, (2023, 5, 17, 12, 0)),
    ];
    assert_eq!(sok_avtaler(&liste, ""), liste);
}
