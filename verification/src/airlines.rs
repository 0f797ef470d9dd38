//! Airline identification from a callsign alone.
//!
//! Airline callsigns begin with the airline's three-letter ICAO designator
//! (`DAL123` -> `DAL` = Delta Air Lines, `AEE251` -> `AEE` = Aegean). The
//! designator is resolved against a curated table carried by the library;
//! lookups are exact matches on the first three letters of the trimmed,
//! upper-cased callsign.

use vstd::prelude::*;
use crate::text::{
    ascii_upper, ascii_upper_seq, char_is_ascii_letter, chars_of, chars_to_ascii_upper, is_ascii_letter,
    is_ascii_uppercase, is_space, str_eq, string_of, take_chars, trim, trim_chars, trim_end, trim_start,
};

verus! {

/// (ICAO designator, airline name) pairs for carriers commonly seen from
/// the geofence plus major international airlines, in lookup order.
pub open spec fn airline_table() -> Seq<(&'static str, &'static str)> {
    seq![
        // Greece and the eastern Mediterranean
        ("AEE", "Aegean Airlines"),
        ("OAL", "Olympic Air"),
        ("THY", "Turkish Airlines"),
        ("MSC", "Air Cairo"),
        ("MSR", "EgyptAir"),
        ("MEA", "Middle East Airlines"),
        ("RJA", "Royal Jordanian"),
        ("AMC", "Air Malta"),
        ("NOS", "Neos"),
        ("SEH", "Sky Express"),
        ("ISR", "Israir"),
        ("AIZ", "Arkia Israeli Airlines"),
        // Europe
        ("DLH", "Lufthansa"),
        ("BAW", "British Airways"),
        ("KLM", "KLM Royal Dutch Airlines"),
        ("AFR", "Air France"),
        ("RYR", "Ryanair"),
        ("EWG", "Eurowings"),
        ("WZZ", "Wizz Air"),
        ("EZY", "easyJet"),
        ("VIR", "Virgin Atlantic"),
        ("SAS", "Scandinavian Airlines"),
        ("AUA", "Austrian Airlines"),
        ("SWR", "Swiss International Air Lines"),
        ("IBE", "Iberia"),
        ("TAP", "TAP Air Portugal"),
        ("ITY", "ITA Airways"),
        ("EIN", "Aer Lingus"),
        ("CFG", "Condor"),
        ("TUI", "TUI Airways"),
        // Middle East / Asia / Oceania
        ("UAE", "Emirates"),
        ("QTR", "Qatar Airways"),
        ("ETD", "Etihad Airways"),
        ("KAC", "Kuwait Airways"),
        ("GFA", "Gulf Air"),
        ("FDB", "flydubai"),
        ("ETH", "Ethiopian Airlines"),
        ("SIA", "Singapore Airlines"),
        ("CPA", "Cathay Pacific"),
        ("ANA", "All Nippon Airways"),
        ("JAL", "Japan Airlines"),
        ("QFA", "Qantas"),
        ("ANZ", "Air New Zealand"),
        // North America
        ("DAL", "Delta Air Lines"),
        ("UAL", "United Airlines"),
        ("AAL", "American Airlines"),
        ("ACA", "Air Canada"),
        ("JBU", "JetBlue Airways"),
    ]
}

fn airlines() -> (v: Vec<(&'static str, &'static str)>)
    ensures
        v@ == airline_table(),
{
    vec![
        // Greece and the eastern Mediterranean
        ("AEE", "Aegean Airlines"),
        ("OAL", "Olympic Air"),
        ("THY", "Turkish Airlines"),
        ("MSC", "Air Cairo"),
        ("MSR", "EgyptAir"),
        ("MEA", "Middle East Airlines"),
        ("RJA", "Royal Jordanian"),
        ("AMC", "Air Malta"),
        ("NOS", "Neos"),
        ("SEH", "Sky Express"),
        ("ISR", "Israir"),
        ("AIZ", "Arkia Israeli Airlines"),
        // Europe
        ("DLH", "Lufthansa"),
        ("BAW", "British Airways"),
        ("KLM", "KLM Royal Dutch Airlines"),
        ("AFR", "Air France"),
        ("RYR", "Ryanair"),
        ("EWG", "Eurowings"),
        ("WZZ", "Wizz Air"),
        ("EZY", "easyJet"),
        ("VIR", "Virgin Atlantic"),
        ("SAS", "Scandinavian Airlines"),
        ("AUA", "Austrian Airlines"),
        ("SWR", "Swiss International Air Lines"),
        ("IBE", "Iberia"),
        ("TAP", "TAP Air Portugal"),
        ("ITY", "ITA Airways"),
        ("EIN", "Aer Lingus"),
        ("CFG", "Condor"),
        ("TUI", "TUI Airways"),
        // Middle East / Asia / Oceania
        ("UAE", "Emirates"),
        ("QTR", "Qatar Airways"),
        ("ETD", "Etihad Airways"),
        ("KAC", "Kuwait Airways"),
        ("GFA", "Gulf Air"),
        ("FDB", "flydubai"),
        ("ETH", "Ethiopian Airlines"),
        ("SIA", "Singapore Airlines"),
        ("CPA", "Cathay Pacific"),
        ("ANA", "All Nippon Airways"),
        ("JAL", "Japan Airlines"),
        ("QFA", "Qantas"),
        ("ANZ", "Air New Zealand"),
        // North America
        ("DAL", "Delta Air Lines"),
        ("UAL", "United Airlines"),
        ("AAL", "American Airlines"),
        ("ACA", "Air Canada"),
        ("JBU", "JetBlue Airways"),
    ]
}

/// The designator of a callsign: the first three characters of the trimmed
/// callsign, upper-cased, when all three are ASCII letters.
pub open spec fn designator_of(callsign: Seq<char>) -> Option<Seq<char>> {
    let t = trim(callsign);
    if t.len() >= 3 && is_ascii_letter(t[0]) && is_ascii_letter(t[1]) && is_ascii_letter(t[2]) {
        Some(ascii_upper_seq(t.take(3)))
    } else {
        None
    }
}

/// The name paired with the first entry of `table` whose designator is
/// `code`.
pub open spec fn table_lookup(table: Seq<(&'static str, &'static str)>, code: Seq<char>) -> Option<
    &'static str,
>
    decreases table.len(),
{
    if table.len() == 0 {
        None
    } else if table[0].0@ == code {
        Some(table[0].1)
    } else {
        table_lookup(table.drop_first(), code)
    }
}

/// The airline a callsign belongs to, if its designator is in the table.
pub open spec fn airline_of(callsign: Seq<char>) -> Option<&'static str> {
    match designator_of(callsign) {
        Some(code) => table_lookup(airline_table(), code),
        None => None,
    }
}

/// Extract the ICAO airline designator from a callsign: the first three
/// characters, which must all be letters (so tail numbers like `N12345`
/// and other non-airline callsigns yield `None`).
pub fn designator(callsign: &str) -> (r: Option<String>)
    ensures
        r is Some <==> designator_of(callsign@) is Some,
        r matches Some(d) ==> d@ == designator_of(callsign@)->0,
{
    let chars = chars_of(callsign);
    let t = trim_chars(&chars);
    if t.len() >= 3 && char_is_ascii_letter(t[0]) && char_is_ascii_letter(t[1])
        && char_is_ascii_letter(t[2]) {
        let prefix = take_chars(&t, 3);
        let upper = chars_to_ascii_upper(&prefix);
        Some(string_of(&upper))
    } else {
        None
    }
}

/// Resolve an airline name from a callsign, or `None` if the designator
/// is not in the table (or the callsign has no airline designator).
pub fn airline_name(callsign: &str) -> (r: Option<&'static str>)
    ensures
        r == airline_of(callsign@),
{
    let code = match designator(callsign) {
        Some(code) => code,
        None => return None,
    };
    let table = airlines();
    let n = table.len();
    assert(airline_table().skip(0) =~= airline_table());
    for i in 0..n
        invariant
            n == table@.len(),
            table@ == airline_table(),
            code@ == designator_of(callsign@)->0,
            designator_of(callsign@) is Some,
            table_lookup(airline_table(), code@) == table_lookup(
                airline_table().skip(i as int),
                code@,
            ),
    {
        let (entry_code, entry_name) = table[i];
        proof {
            assert(airline_table().skip(i as int)[0] == table@[i as int]);
            assert(airline_table().skip(i as int).drop_first() =~= airline_table().skip(i + 1));
        }
        if str_eq(entry_code, code.as_str()) {
            return Some(entry_name);
        }
    }
    proof {
        assert(airline_table().skip(n as int).len() == 0);
    }
    None
}

/// The designator is already its own designator: three upper-case ASCII
/// letters with nothing around them.
pub proof fn lemma_designator_is_stable(callsign: Seq<char>)
    requires
        designator_of(callsign) is Some,
    ensures
        designator_of(designator_of(callsign)->0) == designator_of(callsign),
{
    let d = designator_of(callsign)->0;
    let t = trim(callsign);
    assert(d.len() == 3);
    assert forall|i: int| 0 <= i < 3 implies is_ascii_uppercase(#[trigger] d[i]) by {
        assert(d[i] == ascii_upper(t[i]));
    }
    assert(!is_space(d[0]));
    assert(!is_space(d[2]));
    assert(trim_start(d) == d);
    assert(d.drop_last().drop_last().drop_last().len() == 0);
    assert(trim_end(d) == d);
    assert(ascii_upper_seq(d.take(3)) =~= d);
}

/// A designator is three upper-case ASCII letters: the first three
/// characters of the trimmed callsign, upper-cased. A callsign has one
/// exactly when its trimmed text starts with three letters.
pub proof fn lemma_designator_shape(callsign: Seq<char>)
    ensures
        designator_of(callsign) is Some <==> (trim(callsign).len() >= 3 && forall|i: int|
            0 <= i < 3 ==> #[trigger] is_ascii_letter(trim(callsign)[i])),
        designator_of(callsign) matches Some(d) ==> d.len() == 3 && forall|i: int|
            0 <= i < 3 ==> #[trigger] is_ascii_uppercase(d[i]) && d[i] == ascii_upper(
                trim(callsign)[i],
            ),
{
    let t = trim(callsign);
    if t.len() >= 3 && is_ascii_letter(t[0]) && is_ascii_letter(t[1]) && is_ascii_letter(t[2]) {
        let d = designator_of(callsign)->0;
        assert forall|i: int| 0 <= i < 3 implies #[trigger] is_ascii_uppercase(d[i]) && d[i]
            == ascii_upper(t[i]) by {
            assert(d[i] == ascii_upper(t[i]));
        }
    } else if t.len() >= 3 {
        assert(!is_ascii_letter(t[0]) || !is_ascii_letter(t[1]) || !is_ascii_letter(t[2]));
    }
}

proof fn lemma_lookup_at(
    table: Seq<(&'static str, &'static str)>,
    code: Seq<char>,
    i: int,
)
    requires
        0 <= i < table.len(),
        table[i].0@ == code,
        forall|j: int| 0 <= j < i ==> #[trigger] table[j].0@ != code,
    ensures
        table_lookup(table, code) == Some(table[i].1),
    decreases i,
{
    if i > 0 {
        let rest = table.drop_first();
        assert forall|j: int| 0 <= j < i - 1 implies #[trigger] rest[j].0@ != code by {
            assert(rest[j] == table[j + 1]);
        }
        assert(table[0].0@ != code);
        lemma_lookup_at(rest, code, i - 1);
    }
}

proof fn lemma_lookup_absent(table: Seq<(&'static str, &'static str)>, code: Seq<char>)
    requires
        forall|j: int| 0 <= j < table.len() ==> #[trigger] table[j].0@ != code,
    ensures
        table_lookup(table, code) is None,
    decreases table.len(),
{
    if table.len() > 0 {
        let rest = table.drop_first();
        assert forall|j: int| 0 <= j < rest.len() implies #[trigger] rest[j].0@ != code by {
            assert(rest[j] == table[j + 1]);
        }
        assert(table[0].0@ != code);
        lemma_lookup_absent(rest, code);
    }
}

/// A callsign's airline is the carrier of the first table entry that
/// carries its designator; with no such entry it has none.
pub proof fn lemma_airline_is_first_match(callsign: Seq<char>, i: int)
    requires
        designator_of(callsign) is Some,
    ensures
        0 <= i < airline_table().len() && airline_table()[i].0@ == designator_of(callsign)->0
            && (forall|j: int|
            0 <= j < i ==> #[trigger] airline_table()[j].0@ != designator_of(callsign)->0)
            ==> airline_of(callsign) == Some(airline_table()[i].1),
        (forall|j: int|
            0 <= j < airline_table().len() ==> #[trigger] airline_table()[j].0@ != designator_of(
                callsign,
            )->0) ==> airline_of(callsign) is None,
{
    let code = designator_of(callsign)->0;
    let t = airline_table();
    if 0 <= i < t.len() && t[i].0@ == code && (forall|j: int| 0 <= j < i ==> #[trigger] t[j].0@ != code) {
        lemma_lookup_at(t, code, i);
    }
    if forall|j: int| 0 <= j < t.len() ==> #[trigger] t[j].0@ != code {
        lemma_lookup_absent(t, code);
    }
}

/// The carriers the library knows, in lookup order: each designator beside
/// the airline it names.
pub proof fn lemma_airline_table_entries()
    ensures
        airline_table().len() == 48,
        airline_table()[0] == ("AEE", "Aegean Airlines"),
        airline_table()[1] == ("OAL", "Olympic Air"),
        airline_table()[2] == ("THY", "Turkish Airlines"),
        airline_table()[3] == ("MSC", "Air Cairo"),
        airline_table()[4] == ("MSR", "EgyptAir"),
        airline_table()[5] == ("MEA", "Middle East Airlines"),
        airline_table()[6] == ("RJA", "Royal Jordanian"),
        airline_table()[7] == ("AMC", "Air Malta"),
        airline_table()[8] == ("NOS", "Neos"),
        airline_table()[9] == ("SEH", "Sky Express"),
        airline_table()[10] == ("ISR", "Israir"),
        airline_table()[11] == ("AIZ", "Arkia Israeli Airlines"),
        airline_table()[12] == ("DLH", "Lufthansa"),
        airline_table()[13] == ("BAW", "British Airways"),
        airline_table()[14] == ("KLM", "KLM Royal Dutch Airlines"),
        airline_table()[15] == ("AFR", "Air France"),
        airline_table()[16] == ("RYR", "Ryanair"),
        airline_table()[17] == ("EWG", "Eurowings"),
        airline_table()[18] == ("WZZ", "Wizz Air"),
        airline_table()[19] == ("EZY", "easyJet"),
        airline_table()[20] == ("VIR", "Virgin Atlantic"),
        airline_table()[21] == ("SAS", "Scandinavian Airlines"),
        airline_table()[22] == ("AUA", "Austrian Airlines"),
        airline_table()[23] == ("SWR", "Swiss International Air Lines"),
        airline_table()[24] == ("IBE", "Iberia"),
        airline_table()[25] == ("TAP", "TAP Air Portugal"),
        airline_table()[26] == ("ITY", "ITA Airways"),
        airline_table()[27] == ("EIN", "Aer Lingus"),
        airline_table()[28] == ("CFG", "Condor"),
        airline_table()[29] == ("TUI", "TUI Airways"),
        airline_table()[30] == ("UAE", "Emirates"),
        airline_table()[31] == ("QTR", "Qatar Airways"),
        airline_table()[32] == ("ETD", "Etihad Airways"),
        airline_table()[33] == ("KAC", "Kuwait Airways"),
        airline_table()[34] == ("GFA", "Gulf Air"),
        airline_table()[35] == ("FDB", "flydubai"),
        airline_table()[36] == ("ETH", "Ethiopian Airlines"),
        airline_table()[37] == ("SIA", "Singapore Airlines"),
        airline_table()[38] == ("CPA", "Cathay Pacific"),
        airline_table()[39] == ("ANA", "All Nippon Airways"),
        airline_table()[40] == ("JAL", "Japan Airlines"),
        airline_table()[41] == ("QFA", "Qantas"),
        airline_table()[42] == ("ANZ", "Air New Zealand"),
        airline_table()[43] == ("DAL", "Delta Air Lines"),
        airline_table()[44] == ("UAL", "United Airlines"),
        airline_table()[45] == ("AAL", "American Airlines"),
        airline_table()[46] == ("ACA", "Air Canada"),
        airline_table()[47] == ("JBU", "JetBlue Airways"),
{
}

} // verus!
