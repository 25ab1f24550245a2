use avtalebok::avtale::Avtale;
use avtalebok::fil::fra_post;
use avtalebok::fil::fra_post_med;
use avtalebok::fil::fra_poster;
use avtalebok::fil::til_post;
use avtalebok::fil::til_poster;
use avtalebok::fil::Avtalepost;
use avtalebok::tid::DatoFeil;
use avtalebok::tid::Tidspunkt;

fn en_avtale(tittel: &str, varighet: i32, dag: u32) -> Avtale {
    Avtale {
        tittel: tittel.to_string(),
        sted: "Storgata 1".to_string(),
        varighet,
        starttidspunkt: Tidspunkt::ny(2023, 5, dag, 12, 30, 15).unwrap(),
    }
}

fn en_post(tittel: &str, start: &str) -> Avtalepost {
    Avtalepost {
        tittel: tittel.to_string(),
        sted: "Storgata 1".to_string(),
        varighet: 45,
        starttidspunkt: start.to_string(),
    }
}

#[test]
fn til_post_skriver_starttidspunktet_ut() {
    assert_eq!(
        til_post(&en_avtale("Tannlege", 45, 17)),
        en_post("Tannlege", "2023-05-17 12:30:15")
    );
}

#[test]
fn til_poster_gir_en_post_for_hver_avtale() {
    assert_eq!(til_poster(&vec![]), vec![]);
    let poster = til_poster(&vec![en_avtale("a", 45, 17), en_avtale("b", 45, 18)]);
    assert_eq!(
        poster,
        vec![en_post("a", "2023-05-17 12:30:15"), en_post("b", "2023-05-18 12:30:15")]
    );
}

#[test]
fn fra_post_leser_starttidspunktet() {
    assert_eq!(
        fra_post(&en_post("Tannlege", "2023-05-17 12:30:15")),
        Ok(en_avtale("Tannlege", 45, 17))
    );
    assert_eq!(fra_post(&en_post("Tannlege", "2023-05-17 12:30")), Err(DatoFeil::Format));
    assert_eq!(fra_post(&en_post("Tannlege", "")), Err(DatoFeil::Format));
}

#[test]
fn fra_post_med_foelger_utfallet() {
    let post = en_post("Tannlege", "hva som helst");
    let t = Tidspunkt::ny(2023, 5, 17, 12, 30, 15).unwrap();
    assert_eq!(fra_post_med(&post, Ok(t)), Ok(en_avtale("Tannlege", 45, 17)));
    for feil in [DatoFeil::Format, DatoFeil::FinnesIkke, DatoFeil::Tvetydig] {
        assert_eq!(fra_post_med(&post, Err(feil)), Err(feil));
    }
}

#[test]
fn fra_poster_gir_listen_i_filens_rekkefolge() {
    assert_eq!(fra_poster(&vec![]), Ok(vec![]));
    let poster = vec![
        en_post("b", "2023-05-18 12:30:15"),
        en_post("a", "2023-05-17 12:30:15"),
        en_post("b", "2023-05-18 12:30:15"),
    ];
    assert_eq!(
        fra_poster(&poster),
        Ok(vec![en_avtale("b", 45, 18), en_avtale("a", 45, 17), en_avtale("b", 45, 18)])
    );
}

#[test]
fn fra_poster_feiler_paa_forste_post_som_ikke_kan_leses() {
    let poster = vec![
        en_post("a", "2023-05-17 12:30:15"),
        en_post("b", "i morgen"),
        en_post("c", "2023-05-18 12:30:15"),
    ];
    assert_eq!(fra_poster(&poster), Err(DatoFeil::Format));
}

#[test]
fn lagring_og_lesing_gir_listen_tilbake() {
    let liste = vec![
        en_avtale("Tannlege", 45, 17),
        en_avtale("", -1, 1),
        en_avtale("Team Sync", i32::MAX, 31),
        en_avtale("Tannlege", 45, 17),
    ];
    assert_eq!(fra_poster(&til_poster(&liste)), Ok(liste));
}
