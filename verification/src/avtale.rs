//! The appointment, the text that shows one, and the two filters.

use vstd::prelude::*;
use crate::dato_format::serialize;
use crate::tall::desimal;
use crate::tall::med_fortegn;
use crate::tall::skriv_desimal;
use crate::tall::skriv_heltall;
use crate::tekst::finnes_i;
use crate::tekst::inneholder;
use crate::tekst::smaa_bokstaver;
use crate::tekst::til_smaa_bokstaver;
use crate::tid::stempeltekst;
use crate::tid::Dato;
use crate::tid::Stempel;
use crate::tid::Tidspunkt;

verus! {

/// An appointment: what it is about, where, for how long, and when it starts.
///
/// The duration is any `i32`, in a unit that the book does not fix; the
/// start time is a date and time on the wall clock.
#[derive(Debug, PartialEq)]
pub struct Avtale {
    pub tittel: String,
    pub sted: String,
    pub varighet: i32,
    pub starttidspunkt: Tidspunkt,
}

/// An appointment as plain values: the two texts as their characters and
/// the start time as its seven numbers.
pub struct AvtaleSyn {
    pub tittel: Seq<char>,
    pub sted: Seq<char>,
    pub varighet: i32,
    pub starttidspunkt: Stempel,
}

impl View for Avtale {
    type V = AvtaleSyn;

    open spec fn view(&self) -> AvtaleSyn {
        AvtaleSyn {
            tittel: self.tittel@,
            sted: self.sted@,
            varighet: self.varighet,
            starttidspunkt: self.starttidspunkt@,
        }
    }
}

impl Clone for Avtale {
    fn clone(&self) -> (r: Self)
        ensures
            r == *self,
    {
        Avtale {
            tittel: self.tittel.clone(),
            sted: self.sted.clone(),
            varighet: self.varighet,
            starttidspunkt: self.starttidspunkt,
        }
    }
}

/// The appointments of a list as plain values, in the order of the list.
pub open spec fn syn_av(liste: Seq<Avtale>) -> Seq<AvtaleSyn> {
    liste.map_values(|a: Avtale| a@)
}

/// The text that shows the appointment `a`.
pub open spec fn avtaletekst(a: AvtaleSyn) -> Seq<char> {
    "Tittle: "@ + a.tittel + ", Sted: "@ + a.sted + ", varighet: "@ + med_fortegn(
        a.varighet as int,
    ) + ", Starttidspunkt: "@ + stempeltekst(a.starttidspunkt)
}

/// The line that shows the appointment `a` at place `i` of a list.
pub open spec fn linjetekst(i: nat, a: AvtaleSyn) -> Seq<char> {
    "Index:"@ + desimal(i) + " Avtale: "@ + avtaletekst(a) + "\n"@
}

/// The text that shows a list: one line for each appointment, in the order
/// of the list, each with its place counted from 0.
pub open spec fn listetekst(liste: Seq<AvtaleSyn>) -> Seq<char>
    decreases liste.len(),
{
    if liste.len() == 0 {
        Seq::empty()
    } else {
        listetekst(liste.drop_last()) + linjetekst((liste.len() - 1) as nat, liste.last())
    }
}

impl Avtale {
    /// The text that shows this appointment.
    pub fn to_string(&self) -> (r: String)
        ensures
            r@ == avtaletekst(self@),
    {
        let mut ut = String::from_str("Tittle: ");
        ut.append(self.tittel.as_str());
        ut.append(", Sted: ");
        ut.append(self.sted.as_str());
        ut.append(", varighet: ");
        skriv_heltall(&mut ut, self.varighet as i64);
        ut.append(", Starttidspunkt: ");
        let start = serialize(&self.starttidspunkt);
        ut.append(start.as_str());
        ut
    }
}

/// The text that shows the list `avtale_liste`.
pub fn print_avtaler(avtale_liste: &Vec<Avtale>) -> (r: String)
    ensures
        r@ == listetekst(syn_av(avtale_liste@)),
{
    let ghost alle = syn_av(avtale_liste@);
    let mut ut = String::new();
    let n = avtale_liste.len();
    let mut i: usize = 0;
    while i < n
        invariant
            n == avtale_liste.len(),
            i <= n,
            alle == syn_av(avtale_liste@),
            ut@ == listetekst(alle.take(i as int)),
        decreases n - i,
    {
        ut.append("Index:");
        skriv_desimal(&mut ut, i as u64);
        ut.append(" Avtale: ");
        let tekst = avtale_liste[i].to_string();
        ut.append(tekst.as_str());
        ut.append("\n");
        assert(alle.take(i + 1).drop_last() =~= alle.take(i as int));
        i += 1;
    }
    assert(alle.take(n as int) =~= alle);
    ut
}

/// The test of the date filter: whether an appointment starts on `dato`.
pub open spec fn starter_paa(dato: Dato) -> spec_fn(Avtale) -> bool {
    |a: Avtale| a.starttidspunkt@.dato() == dato
}

/// The test of the title filter: whether the title of an appointment holds
/// `naal` somewhere, letter for letter.
pub open spec fn har_i_tittel(naal: Seq<char>) -> spec_fn(Avtale) -> bool {
    |a: Avtale| inneholder(a.tittel@, naal)
}

/// The appointments of `avtale_liste` that start on the day `dato`, in the
/// order of the list.
pub fn skjekk_samme_dato(avtale_liste: &Vec<Avtale>, dato: &Dato) -> (r: Vec<Avtale>)
    ensures
        r@ == avtale_liste@.filter(starter_paa(*dato)),
{
    let ghost test = starter_paa(*dato);
    let mut filtert: Vec<Avtale> = Vec::new();
    let n = avtale_liste.len();
    let mut i: usize = 0;
    proof {
        reveal(Seq::filter);
    }
    while i < n
        invariant
            n == avtale_liste.len(),
            i <= n,
            test == starter_paa(*dato),
            filtert@ == avtale_liste@.take(i as int).filter(test),
        decreases n - i,
    {
        proof {
            reveal(Seq::filter);
            assert(avtale_liste@.take(i + 1).drop_last() =~= avtale_liste@.take(i as int));
        }
        let avtale = &avtale_liste[i];
        let dag = avtale.starttidspunkt.dato();
        if dag.aar == dato.aar && dag.maaned == dato.maaned && dag.dag == dato.dag {
            filtert.push(avtale.clone());
        }
        i += 1;
    }
    assert(avtale_liste@.take(n as int) =~= avtale_liste@);
    filtert
}

/// The appointments of `avtale_liste` whose title holds the search word
/// somewhere, in the order of the list. The search word is put in lower
/// case first and the title is taken as it stands: the title `Team Sync`
/// is found neither by `sync` nor by `Sync`.
pub fn sok_avtaler(avtale_liste: &Vec<Avtale>, soke_ord: &str) -> (r: Vec<Avtale>)
    ensures
        r@ == avtale_liste@.filter(har_i_tittel(smaa_bokstaver(soke_ord@))),
{
    let naal = til_smaa_bokstaver(soke_ord);
    let ghost test = har_i_tittel(naal@);
    let mut filtrert: Vec<Avtale> = Vec::new();
    let n = avtale_liste.len();
    let mut i: usize = 0;
    proof {
        reveal(Seq::filter);
    }
    while i < n
        invariant
            n == avtale_liste.len(),
            i <= n,
            test == har_i_tittel(naal@),
            filtrert@ == avtale_liste@.take(i as int).filter(test),
        decreases n - i,
    {
        proof {
            reveal(Seq::filter);
            assert(avtale_liste@.take(i + 1).drop_last() =~= avtale_liste@.take(i as int));
        }
        let avtale = &avtale_liste[i];
        if finnes_i(avtale.tittel.as_str(), naal.as_str()) {
            filtrert.push(avtale.clone());
        }
        i += 1;
    }
    assert(avtale_liste@.take(n as int) =~= avtale_liste@);
    filtrert
}

/// What a filter keeps was in the list.
proof fn lemma_filter_tar_fra_listen(liste: Seq<Avtale>, test: spec_fn(Avtale) -> bool, a: Avtale)
    requires
        liste.filter(test).contains(a),
    ensures
        liste.contains(a),
    decreases liste.len(),
{
    reveal(Seq::filter);
    if liste.len() > 0 && !(test(liste.last()) && a == liste.last()) {
        lemma_filter_tar_fra_listen(liste.drop_last(), test, a);
    }
}

/// A filter keeps an appointment if and only if the appointment is in the
/// list and stands the test.
proof fn lemma_filter_beholder(liste: Seq<Avtale>, test: spec_fn(Avtale) -> bool)
    ensures
        forall|a: Avtale| #[trigger] liste.filter(test).contains(a) <==> liste.contains(a) && test(a),
{
    let ut = liste.filter(test);
    assert forall|a: Avtale| #[trigger] ut.contains(a) <==> liste.contains(a) && test(a) by {
        if ut.contains(a) {
            lemma_filter_tar_fra_listen(liste, test, a);
            let i = choose|i: int| 0 <= i < ut.len() && ut[i] == a;
            liste.lemma_filter_pred(test, i);
        }
        if liste.contains(a) && test(a) {
            let i = choose|i: int| 0 <= i < liste.len() && liste[i] == a;
            liste.lemma_filter_contains(test, i);
        }
    }
}

/// The date filter gives back exactly the appointments of the day asked
/// for: an appointment is in the result if and only if it is in the list
/// and starts on that day. Appointments of any other day are left out, and
/// none of that day is.
pub proof fn lov_datofilter(liste: Seq<Avtale>, dato: Dato)
    ensures
        forall|a: Avtale| #[trigger]
            liste.filter(starter_paa(dato)).contains(a) <==> liste.contains(a)
                && a.starttidspunkt@.dato() == dato,
{
    lemma_filter_beholder(liste, starter_paa(dato));
}

/// The title filter gives back exactly the appointments whose title, as it
/// stands, holds the search word in lower case: an appointment is in the
/// result if and only if it is in the list and its title does.
pub proof fn lov_tittelfilter(liste: Seq<Avtale>, soke_ord: Seq<char>)
    ensures
        forall|a: Avtale| #[trigger]
            liste.filter(har_i_tittel(smaa_bokstaver(soke_ord))).contains(a) <==> liste.contains(a)
                && inneholder(a.tittel@, smaa_bokstaver(soke_ord)),
{
    lemma_filter_beholder(liste, har_i_tittel(smaa_bokstaver(soke_ord)));
}

} // verus!
