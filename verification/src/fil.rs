//! The records of the saved file.
//!
//! The file holds one record for each appointment, with the start time as
//! a text. This module turns a list into its records and records back into
//! a list; turning records into the bytes of the file and back is for the
//! caller.

use vstd::prelude::*;
use crate::avtale::syn_av;
use crate::avtale::Avtale;
use crate::avtale::AvtaleSyn;
use crate::dato_format::deserialize;
use crate::dato_format::serialize;
use crate::dato_format::FORMAT;
use crate::tid::lest_stempel;
use crate::tid::lest_tidspunkt;
use crate::tid::stempeltekst;
use crate::tid::utfall_syn;
use crate::tid::DatoFeil;
use crate::tid::Oppslag;
use crate::tid::Stempel;
use crate::tid::Tidspunkt;

verus! {

/// The record of one appointment in the saved file: the fields of the
/// appointment, with the start time written out in `FORMAT`.
#[derive(Debug, PartialEq)]
pub struct Avtalepost {
    pub tittel: String,
    pub sted: String,
    pub varighet: i32,
    pub starttidspunkt: String,
}

/// A record, as plain values.
pub struct AvtalepostSyn {
    pub tittel: Seq<char>,
    pub sted: Seq<char>,
    pub varighet: i32,
    pub starttidspunkt: Seq<char>,
}

impl View for Avtalepost {
    type V = AvtalepostSyn;

    open spec fn view(&self) -> AvtalepostSyn {
        AvtalepostSyn {
            tittel: self.tittel@,
            sted: self.sted@,
            varighet: self.varighet,
            starttidspunkt: self.starttidspunkt@,
        }
    }
}

/// The records of a list as plain values, in the order of the list.
pub open spec fn poster_syn(poster: Seq<Avtalepost>) -> Seq<AvtalepostSyn> {
    poster.map_values(|p: Avtalepost| p@)
}

/// The record that is saved for the appointment `a`.
pub open spec fn post_av(a: AvtaleSyn) -> AvtalepostSyn {
    AvtalepostSyn {
        tittel: a.tittel,
        sted: a.sted,
        varighet: a.varighet,
        starttidspunkt: stempeltekst(a.starttidspunkt),
    }
}

/// The records that are saved for the list `liste`: one for each
/// appointment, in the order of the list.
pub open spec fn poster_av(liste: Seq<AvtaleSyn>) -> Seq<AvtalepostSyn> {
    liste.map_values(|a: AvtaleSyn| post_av(a))
}

/// The appointment of the record `p`, where `start` is what came of
/// reading the start time of the record.
pub open spec fn avtale_med(p: AvtalepostSyn, start: Result<Stempel, DatoFeil>) -> Result<
    AvtaleSyn,
    DatoFeil,
> {
    match start {
        Ok(starttidspunkt) => Ok(
            AvtaleSyn { tittel: p.tittel, sted: p.sted, varighet: p.varighet, starttidspunkt },
        ),
        Err(feil) => Err(feil),
    }
}

/// The appointment of the record `p`, if the zone answers `oppslag` when
/// asked about its start time.
pub open spec fn avtale_av(p: AvtalepostSyn, oppslag: Oppslag) -> Result<AvtaleSyn, DatoFeil> {
    avtale_med(p, lest_tidspunkt(p.starttidspunkt, FORMAT@, oppslag))
}

/// The list of the records `poster`, if the zone answers `oppslag[i]` when
/// asked about the start time of record `i`. The first record, in the
/// order of the file, whose start time cannot be read decides the error.
pub open spec fn avtaler_av(poster: Seq<AvtalepostSyn>, oppslag: Seq<Oppslag>) -> Result<
    Seq<AvtaleSyn>,
    DatoFeil,
>
    decreases poster.len(),
{
    if poster.len() == 0 {
        Ok(Seq::empty())
    } else {
        match avtaler_av(poster.drop_last(), oppslag) {
            Ok(foer) => match avtale_av(poster.last(), oppslag[poster.len() - 1]) {
                Ok(avtale) => Ok(foer.push(avtale)),
                Err(feil) => Err(feil),
            },
            Err(feil) => Err(feil),
        }
    }
}

/// An appointment or an error, with the appointment as plain values.
pub open spec fn avtale_eller_feil(r: Result<Avtale, DatoFeil>) -> Result<AvtaleSyn, DatoFeil> {
    match r {
        Ok(avtale) => Ok(avtale@),
        Err(feil) => Err(feil),
    }
}

/// A list or an error, with the list as plain values.
pub open spec fn liste_eller_feil(r: Result<Vec<Avtale>, DatoFeil>) -> Result<
    Seq<AvtaleSyn>,
    DatoFeil,
> {
    match r {
        Ok(liste) => Ok(syn_av(liste@)),
        Err(feil) => Err(feil),
    }
}

/// The record to save for the appointment `avtale`.
pub fn til_post(avtale: &Avtale) -> (r: Avtalepost)
    ensures
        r@ == post_av(avtale@),
{
    Avtalepost {
        tittel: avtale.tittel.clone(),
        sted: avtale.sted.clone(),
        varighet: avtale.varighet,
        starttidspunkt: serialize(&avtale.starttidspunkt),
    }
}

/// The records to save for the list `avtale_liste`.
pub fn til_poster(avtale_liste: &Vec<Avtale>) -> (r: Vec<Avtalepost>)
    ensures
        poster_syn(r@) == poster_av(syn_av(avtale_liste@)),
{
    let mut poster: Vec<Avtalepost> = Vec::new();
    let n = avtale_liste.len();
    let mut i: usize = 0;
    while i < n
        invariant
            n == avtale_liste.len(),
            i <= n,
            poster.len() == i,
            forall|k: int| 0 <= k < i ==> (#[trigger] poster@[k])@ == post_av(avtale_liste@[k]@),
        decreases n - i,
    {
        poster.push(til_post(&avtale_liste[i]));
        i += 1;
    }
    poster
}

/// The appointment of the record `post`, where `start` is what came of
/// reading its start time.
pub fn fra_post_med(post: &Avtalepost, start: Result<Tidspunkt, DatoFeil>) -> (r: Result<
    Avtale,
    DatoFeil,
>)
    ensures
        avtale_eller_feil(r) == avtale_med(post@, utfall_syn(start)),
{
    match start {
        Ok(starttidspunkt) => Ok(
            Avtale {
                tittel: post.tittel.clone(),
                sted: post.sted.clone(),
                varighet: post.varighet,
                starttidspunkt,
            },
        ),
        Err(feil) => Err(feil),
    }
}

/// The appointment of the record `post`.
///
/// The zone of the machine is asked about the start time. Which answer it
/// gives is not for this library to say; whatever it is, the result is what
/// `avtale_av` makes of it.
pub fn fra_post(post: &Avtalepost) -> (r: Result<Avtale, DatoFeil>)
    ensures
        exists|oppslag: Oppslag| avtale_eller_feil(r) == #[trigger] avtale_av(post@, oppslag),
{
    let start = deserialize(post.starttidspunkt.as_str());
    let r = fra_post_med(post, start);
    proof {
        let oppslag = choose|oppslag: Oppslag|
            utfall_syn(start) == #[trigger] lest_tidspunkt(
                post.starttidspunkt@,
                FORMAT@,
                oppslag,
            );
        assert(avtale_eller_feil(r) == avtale_av(post@, oppslag));
    }
    r
}

/// An error among the first records is the error of all of them.
proof fn lemma_feil_staar(poster: Seq<AvtalepostSyn>, oppslag: Seq<Oppslag>, k: int)
    requires
        0 <= k <= poster.len(),
        avtaler_av(poster.take(k), oppslag) is Err,
    ensures
        avtaler_av(poster, oppslag) == avtaler_av(poster.take(k), oppslag),
    decreases poster.len() - k,
{
    if k < poster.len() {
        assert(poster.take(k + 1).drop_last() =~= poster.take(k));
        lemma_feil_staar(poster, oppslag, k + 1);
    } else {
        assert(poster.take(k) =~= poster);
    }
}

/// Answers of the zone that come after those looked at change nothing.
proof fn lemma_flere_svar(poster: Seq<AvtalepostSyn>, oppslag: Seq<Oppslag>, svar: Oppslag)
    requires
        poster.len() <= oppslag.len(),
    ensures
        avtaler_av(poster, oppslag.push(svar)) == avtaler_av(poster, oppslag),
    decreases poster.len(),
{
    if poster.len() > 0 {
        lemma_flere_svar(poster.drop_last(), oppslag, svar);
    }
}

/// The list of the records `poster`.
///
/// The zone of the machine is asked about each start time in turn, up to
/// the first that cannot be read. Which answers it gives is not for this
/// library to say; whatever they are, the result is what `avtaler_av` makes
/// of them.
pub fn fra_poster(poster: &Vec<Avtalepost>) -> (r: Result<Vec<Avtale>, DatoFeil>)
    ensures
        exists|oppslag: Seq<Oppslag>|
            liste_eller_feil(r) == #[trigger] avtaler_av(poster_syn(poster@), oppslag),
{
    let ghost alle = poster_syn(poster@);
    let ghost mut svar: Seq<Oppslag> = Seq::empty();
    let mut liste: Vec<Avtale> = Vec::new();
    let n = poster.len();
    let mut i: usize = 0;
    assert(syn_av(liste@) =~= Seq::<AvtaleSyn>::empty());
    while i < n
        invariant
            n == poster.len(),
            i <= n,
            alle == poster_syn(poster@),
            svar.len() == i,
            avtaler_av(alle.take(i as int), svar) == Ok::<Seq<AvtaleSyn>, DatoFeil>(
                syn_av(liste@),
            ),
        decreases n - i,
    {
        let utfall = fra_post(&poster[i]);
        let ghost naa = choose|oppslag: Oppslag|
            avtale_eller_feil(utfall) == #[trigger] avtale_av(poster@[i as int]@, oppslag);
        proof {
            lemma_flere_svar(alle.take(i as int), svar, naa);
            assert(alle.take(i + 1).drop_last() =~= alle.take(i as int));
            svar = svar.push(naa);
        }
        match utfall {
            Ok(avtale) => {
                let ghost foer = liste@;
                liste.push(avtale);
                assert(syn_av(liste@) =~= syn_av(foer).push(avtale@));
            },
            Err(feil) => {
                proof {
                    lemma_feil_staar(alle, svar, i + 1);
                }
                return Err(feil);
            },
        }
        i += 1;
    }
    assert(alle.take(n as int) =~= alle);
    Ok(liste)
}

/// Whether chrono reads in the text that it wrote for the start time of
/// `a` that same start time.
pub open spec fn leses_som_skrevet(a: AvtaleSyn) -> bool {
    lest_stempel(stempeltekst(a.starttidspunkt), FORMAT@) == Some(a.starttidspunkt)
}

/// The record that is saved for an appointment gives that appointment back
/// when it is loaded, provided that chrono reads the start time as it wrote
/// it and that the wall clock of the zone shows it once.
pub proof fn lov_rundtur(a: AvtaleSyn)
    ensures
        leses_som_skrevet(a) ==> avtale_av(post_av(a), Oppslag::Entydig) == Ok::<
            AvtaleSyn,
            DatoFeil,
        >(a),
{
}

/// The records that are saved for a list give that list back when they are
/// loaded, each appointment at its place, provided that chrono reads each
/// start time as it wrote it and that the wall clock of the zone shows each
/// of them once.
pub proof fn lov_rundtur_liste(liste: Seq<AvtaleSyn>, oppslag: Seq<Oppslag>)
    ensures
        (forall|i: int| 0 <= i < liste.len() ==> leses_som_skrevet(#[trigger] liste[i]))
            && (forall|i: int| 0 <= i < liste.len() ==> #[trigger] oppslag[i] == Oppslag::Entydig)
            ==> avtaler_av(poster_av(liste), oppslag) == Ok::<Seq<AvtaleSyn>, DatoFeil>(liste),
    decreases liste.len(),
{
    if liste.len() == 0 {
        assert(liste =~= Seq::<AvtaleSyn>::empty());
    } else if (forall|i: int| 0 <= i < liste.len() ==> leses_som_skrevet(#[trigger] liste[i]))
        && (forall|i: int| 0 <= i < liste.len() ==> #[trigger] oppslag[i] == Oppslag::Entydig) {
        let foer = liste.drop_last();
        assert(poster_av(liste).drop_last() =~= poster_av(foer));
        assert forall|i: int| 0 <= i < foer.len() implies leses_som_skrevet(
            #[trigger] foer[i],
        ) by {
            assert(foer[i] == liste[i]);
        }
        lov_rundtur_liste(foer, oppslag);
        lov_rundtur(liste.last());
        assert(foer.push(liste.last()) =~= liste);
    }
}

} // verus!
