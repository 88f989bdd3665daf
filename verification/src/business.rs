//! Jurisdiction tables: the countries the business serves, their risk
//! level, and the countries it does not serve.

use vstd::prelude::*;
use vstd::string::*;
use crate::text::str_equal;

verus! {

/// The texts of a table of name pairs.
pub open spec fn pairs_view(s: Seq<(&str, &str)>) -> Seq<(Seq<char>, Seq<char>)> {
    s.map_values(|p: (&str, &str)| (p.0@, p.1@))
}

/// The texts of a table of names with a pair of names each.
pub open spec fn triples_view(s: Seq<(&str, (&str, &str))>) -> Seq<(Seq<char>, (Seq<char>, Seq<char>))> {
    s.map_values(|p: (&str, (&str, &str))| (p.0@, (p.1.0@, p.1.1@)))
}

/// The value of the first entry of a table whose key is `key`.
pub open spec fn lookup<V>(table: Seq<(Seq<char>, V)>, key: Seq<char>) -> Option<V>
    decreases table.len(),
{
    if table.len() == 0 {
        None
    } else if table[0].0 == key {
        Some(table[0].1)
    } else {
        lookup(table.drop_first(), key)
    }
}


/// The countries served, by ISO code, in table order.
pub open spec fn spec_whitelisted_countries() -> Seq<(Seq<char>, Seq<char>)> {
    seq![
        ("AU"@, "Australia"@),
        ("AR"@, "Argentina"@),
        ("AT"@, "Austria"@),
        ("BE"@, "Belgium"@),
        ("BG"@, "Bulgaria"@),
        ("CA"@, "Canada"@),
        ("HR"@, "Croatia"@),
        ("CZ"@, "Czech Republic"@),
        ("DK"@, "Denmark"@),
        ("EE"@, "Estonia"@),
        ("FI"@, "Finland"@),
        ("FR"@, "France"@),
        ("DE"@, "Germany"@),
        ("GR"@, "Greece"@),
        ("GI"@, "Gibraltar"@),
        ("HU"@, "Hungary"@),
        ("IS"@, "Iceland"@),
        ("IE"@, "Ireland"@),
        ("IT"@, "Italy"@),
        ("LV"@, "Latvia"@),
        ("LI"@, "Liechtenstein"@),
        ("LT"@, "Lithuania"@),
        ("LU"@, "Luxembourg"@),
        ("ME"@, "Montenegro"@),
        ("NL"@, "Netherlands"@),
        ("NZ"@, "New Zealand"@),
        ("NO"@, "Norway"@),
        ("PL"@, "Poland"@),
        ("PT"@, "Portugal"@),
        ("RO"@, "Romania"@),
        ("SK"@, "Slovakia"@),
        ("SI"@, "Slovenia"@),
        ("ES"@, "Spain"@),
        ("SE"@, "Sweden"@),
        ("CH"@, "Switzerland"@),
        ("US"@, "United States"@),
    ]
}

/// The countries served: ISO code and name.
pub fn whitelisted_countries() -> (r: Vec<(&'static str, &'static str)>)
    ensures
        pairs_view(r@) == spec_whitelisted_countries(),
{
    let mut r: Vec<(&'static str, &'static str)> = Vec::new();
    r.push(("AU", "Australia"));
    r.push(("AR", "Argentina"));
    r.push(("AT", "Austria"));
    r.push(("BE", "Belgium"));
    r.push(("BG", "Bulgaria"));
    r.push(("CA", "Canada"));
    r.push(("HR", "Croatia"));
    r.push(("CZ", "Czech Republic"));
    r.push(("DK", "Denmark"));
    r.push(("EE", "Estonia"));
    r.push(("FI", "Finland"));
    r.push(("FR", "France"));
    r.push(("DE", "Germany"));
    r.push(("GR", "Greece"));
    r.push(("GI", "Gibraltar"));
    r.push(("HU", "Hungary"));
    r.push(("IS", "Iceland"));
    r.push(("IE", "Ireland"));
    r.push(("IT", "Italy"));
    r.push(("LV", "Latvia"));
    r.push(("LI", "Liechtenstein"));
    r.push(("LT", "Lithuania"));
    r.push(("LU", "Luxembourg"));
    r.push(("ME", "Montenegro"));
    r.push(("NL", "Netherlands"));
    r.push(("NZ", "New Zealand"));
    r.push(("NO", "Norway"));
    r.push(("PL", "Poland"));
    r.push(("PT", "Portugal"));
    r.push(("RO", "Romania"));
    r.push(("SK", "Slovakia"));
    r.push(("SI", "Slovenia"));
    r.push(("ES", "Spain"));
    r.push(("SE", "Sweden"));
    r.push(("CH", "Switzerland"));
    r.push(("US", "United States"));
    assert(pairs_view(r@) =~= spec_whitelisted_countries());
    r
}

/// The risk level of the served countries that have one, by ISO code, in table order.
pub open spec fn spec_whitelisted_countries_risk() -> Seq<(Seq<char>, (Seq<char>, Seq<char>))> {
    seq![
        ("AU"@, ("Australia"@, "LOW"@)),
        ("AR"@, ("Argentina"@, "LOW"@)),
        ("AT"@, ("Austria"@, "LOW"@)),
        ("BE"@, ("Belgium"@, "LOW"@)),
        ("BG"@, ("Bulgaria"@, "MEDIUM"@)),
        ("CA"@, ("Canada"@, "LOW"@)),
        ("HR"@, ("Croatia"@, "MEDIUM"@)),
        ("CZ"@, ("Czech Republic"@, "MEDIUM"@)),
        ("DK"@, ("Denmark"@, "LOW"@)),
        ("EE"@, ("Estonia"@, "LOW"@)),
        ("FI"@, ("Finland"@, "LOW"@)),
        ("FR"@, ("France"@, "LOW"@)),
        ("DE"@, ("Germany"@, "LOW"@)),
        ("GR"@, ("Greece"@, "LOW"@)),
        ("GI"@, ("Gibraltar"@, "LOW"@)),
        ("HU"@, ("Hungary"@, "MEDIUM"@)),
        ("IS"@, ("Iceland"@, "LOW"@)),
        ("IE"@, ("Ireland"@, "LOW"@)),
        ("IT"@, ("Italy"@, "LOW"@)),
        ("LV"@, ("Latvia"@, "LOW"@)),
        ("LI"@, ("Liechtenstein"@, "LOW"@)),
        ("LT"@, ("Lithuania"@, "LOW"@)),
        ("LU"@, ("Luxembourg"@, "LOW"@)),
        ("ME"@, ("Montenegro"@, "LOW"@)),
        ("NL"@, ("Netherlands"@, "LOW"@)),
        ("NZ"@, ("New Zealand"@, "LOW"@)),
        ("NO"@, ("Norway"@, "LOW"@)),
        ("PL"@, ("Poland"@, "LOW"@)),
        ("PT"@, ("Portugal"@, "LOW"@)),
        ("RO"@, ("Romania"@, "MEDIUM"@)),
        ("SK"@, ("Slovakia"@, "MEDIUM"@)),
        ("SI"@, ("Slovenia"@, "MEDIUM"@)),
        ("ES"@, ("Spain"@, "LOW"@)),
        ("SE"@, ("Sweden"@, "LOW"@)),
        ("CH"@, ("Switzerland"@, "LOW"@)),
        ("US"@, ("United States"@, "LOW"@)),
    ]
}

/// The served countries with a risk level: ISO code, then name and level.
pub fn whitelisted_countries_risk() -> (r: Vec<(&'static str, (&'static str, &'static str))>)
    ensures
        triples_view(r@) == spec_whitelisted_countries_risk(),
{
    let mut r: Vec<(&'static str, (&'static str, &'static str))> = Vec::new();
    r.push(("AU", ("Australia", "LOW")));
    r.push(("AR", ("Argentina", "LOW")));
    r.push(("AT", ("Austria", "LOW")));
    r.push(("BE", ("Belgium", "LOW")));
    r.push(("BG", ("Bulgaria", "MEDIUM")));
    r.push(("CA", ("Canada", "LOW")));
    r.push(("HR", ("Croatia", "MEDIUM")));
    r.push(("CZ", ("Czech Republic", "MEDIUM")));
    r.push(("DK", ("Denmark", "LOW")));
    r.push(("EE", ("Estonia", "LOW")));
    r.push(("FI", ("Finland", "LOW")));
    r.push(("FR", ("France", "LOW")));
    r.push(("DE", ("Germany", "LOW")));
    r.push(("GR", ("Greece", "LOW")));
    r.push(("GI", ("Gibraltar", "LOW")));
    r.push(("HU", ("Hungary", "MEDIUM")));
    r.push(("IS", ("Iceland", "LOW")));
    r.push(("IE", ("Ireland", "LOW")));
    r.push(("IT", ("Italy", "LOW")));
    r.push(("LV", ("Latvia", "LOW")));
    r.push(("LI", ("Liechtenstein", "LOW")));
    r.push(("LT", ("Lithuania", "LOW")));
    r.push(("LU", ("Luxembourg", "LOW")));
    r.push(("ME", ("Montenegro", "LOW")));
    r.push(("NL", ("Netherlands", "LOW")));
    r.push(("NZ", ("New Zealand", "LOW")));
    r.push(("NO", ("Norway", "LOW")));
    r.push(("PL", ("Poland", "LOW")));
    r.push(("PT", ("Portugal", "LOW")));
    r.push(("RO", ("Romania", "MEDIUM")));
    r.push(("SK", ("Slovakia", "MEDIUM")));
    r.push(("SI", ("Slovenia", "MEDIUM")));
    r.push(("ES", ("Spain", "LOW")));
    r.push(("SE", ("Sweden", "LOW")));
    r.push(("CH", ("Switzerland", "LOW")));
    r.push(("US", ("United States", "LOW")));
    assert(triples_view(r@) =~= spec_whitelisted_countries_risk());
    r
}

/// The risk level of a country, when the risk table lists it.
pub fn get_risk_jurisdiction(country_code: &str) -> (r: Option<String>)
    ensures
        match lookup(spec_whitelisted_countries_risk(), country_code@) {
            Some(entry) => r matches Some(s) && s@ == entry.1,
            None => r is None,
        },
{
    let table = whitelisted_countries_risk();
    let ghost t = triples_view(table@);
    let mut i: usize = 0;
    assert(t.subrange(0, t.len() as int) =~= t);
    while i < table.len()
        invariant
            i <= table@.len(),
            t == triples_view(table@),
            t == spec_whitelisted_countries_risk(),
            lookup(t, country_code@) == lookup(t.subrange(i as int, t.len() as int), country_code@),
        decreases table@.len() - i,
    {
        let ghost rest = t.subrange(i as int, t.len() as int);
        assert(rest[0] == t[i as int]);
        let (code, (_, risk)) = table[i];
        if str_equal(code, country_code) {
            return Some(risk.to_owned());
        }
        assert(rest.drop_first() =~= t.subrange(i + 1, t.len() as int));
        i = i + 1;
    }
    None
}

/// The countries not served, by ISO code, in table order.
pub open spec fn spec_blacklisted_countries() -> Seq<(Seq<char>, Seq<char>)> {
    seq![
        ("AF"@, "Afghanistan"@),
        ("AL"@, "Albania"@),
        ("AS"@, "American Samoa"@),
        ("AO"@, "Angola"@),
        ("AM"@, "Armenia"@),
        ("BB"@, "Barbados"@),
        ("BY"@, "Belarus"@),
        ("BF"@, "Burkina Faso"@),
        ("KH"@, "Cambodia"@),
        ("KY"@, "Cayman Islands"@),
        ("CF"@, "Central African Republic"@),
        ("TD"@, "Chad"@),
        ("KM"@, "Comoros"@),
        ("CN"@, "China"@),
        ("CU"@, "Cuba"@),
        ("KP"@, "North Korea"@),
        ("CD"@, "Democratic Republic of the Congo"@),
        ("GQ"@, "Equatorial Guinea"@),
        ("FJ"@, "Fiji"@),
        ("GA"@, "Gabon"@),
        ("GU"@, "Guam"@),
        ("GW"@, "Guinea-Bissau"@),
        ("HT"@, "Haiti"@),
        ("HK"@, "Hong Kong"@),
        ("IN"@, "India"@),
        ("IR"@, "Iran"@),
        ("IQ"@, "Iraq"@),
        ("IL"@, "Israel"@),
        ("JM"@, "Jamaica"@),
        ("JO"@, "Jordan"@),
        ("KZ"@, "Kazakhstan"@),
        ("KG"@, "Kyrgyzstan"@),
        ("LA"@, "Laos"@),
        ("LB"@, "Lebanon"@),
        ("LY"@, "Libya"@),
        ("ML"@, "Mali"@),
        ("MX"@, "Mexico"@),
        ("MA"@, "Morocco"@),
        ("MZ"@, "Mozambique"@),
        ("MM"@, "Myanmar"@),
        ("NI"@, "Nicaragua"@),
        ("PK"@, "Pakistan"@),
        ("PS"@, "Palestine"@),
        ("PA"@, "Panama"@),
        ("PH"@, "Philippines"@),
        ("RU"@, "Russia"@),
        ("WS"@, "Samoa"@),
        ("SN"@, "Senegal"@),
        ("SO"@, "Somalia"@),
        ("SS"@, "South Sudan"@),
        ("SD"@, "Sudan"@),
        ("SY"@, "Syria"@),
        ("TT"@, "Trinidad and Tobago"@),
        ("TR"@, "Turkey"@),
        ("UG"@, "Uganda"@),
        ("UA"@, "Ukraine"@),
        ("VI"@, "U.S. Virgin Islands"@),
        ("UZ"@, "Uzbekistan"@),
        ("VU"@, "Vanuatu"@),
        ("YE"@, "Yemen"@),
        ("GB"@, "United Kingdom"@),
        ("VE"@, "Venezuela"@),
        ("ZW"@, "Zimbabwe"@),
    ]
}

/// The countries not served: ISO code and name.
pub fn blacklisted_countries() -> (r: Vec<(&'static str, &'static str)>)
    ensures
        pairs_view(r@) == spec_blacklisted_countries(),
{
    let mut r: Vec<(&'static str, &'static str)> = Vec::new();
    r.push(("AF", "Afghanistan"));
    r.push(("AL", "Albania"));
    r.push(("AS", "American Samoa"));
    r.push(("AO", "Angola"));
    r.push(("AM", "Armenia"));
    r.push(("BB", "Barbados"));
    r.push(("BY", "Belarus"));
    r.push(("BF", "Burkina Faso"));
    r.push(("KH", "Cambodia"));
    r.push(("KY", "Cayman Islands"));
    r.push(("CF", "Central African Republic"));
    r.push(("TD", "Chad"));
    r.push(("KM", "Comoros"));
    r.push(("CN", "China"));
    r.push(("CU", "Cuba"));
    r.push(("KP", "North Korea"));
    r.push(("CD", "Democratic Republic of the Congo"));
    r.push(("GQ", "Equatorial Guinea"));
    r.push(("FJ", "Fiji"));
    r.push(("GA", "Gabon"));
    r.push(("GU", "Guam"));
    r.push(("GW", "Guinea-Bissau"));
    r.push(("HT", "Haiti"));
    r.push(("HK", "Hong Kong"));
    r.push(("IN", "India"));
    r.push(("IR", "Iran"));
    r.push(("IQ", "Iraq"));
    r.push(("IL", "Israel"));
    r.push(("JM", "Jamaica"));
    r.push(("JO", "Jordan"));
    r.push(("KZ", "Kazakhstan"));
    r.push(("KG", "Kyrgyzstan"));
    r.push(("LA", "Laos"));
    r.push(("LB", "Lebanon"));
    r.push(("LY", "Libya"));
    r.push(("ML", "Mali"));
    r.push(("MX", "Mexico"));
    r.push(("MA", "Morocco"));
    r.push(("MZ", "Mozambique"));
    r.push(("MM", "Myanmar"));
    r.push(("NI", "Nicaragua"));
    r.push(("PK", "Pakistan"));
    r.push(("PS", "Palestine"));
    r.push(("PA", "Panama"));
    r.push(("PH", "Philippines"));
    r.push(("RU", "Russia"));
    r.push(("WS", "Samoa"));
    r.push(("SN", "Senegal"));
    r.push(("SO", "Somalia"));
    r.push(("SS", "South Sudan"));
    r.push(("SD", "Sudan"));
    r.push(("SY", "Syria"));
    r.push(("TT", "Trinidad and Tobago"));
    r.push(("TR", "Turkey"));
    r.push(("UG", "Uganda"));
    r.push(("UA", "Ukraine"));
    r.push(("VI", "U.S. Virgin Islands"));
    r.push(("UZ", "Uzbekistan"));
    r.push(("VU", "Vanuatu"));
    r.push(("YE", "Yemen"));
    r.push(("GB", "United Kingdom"));
    r.push(("VE", "Venezuela"));
    r.push(("ZW", "Zimbabwe"));
    assert(pairs_view(r@) =~= spec_blacklisted_countries());
    r
}



/// The level a risk entry should carry: MEDIUM for BG, HR, CZ, HU, RO, SK
/// and SI, LOW for every other code.
pub open spec fn medium_risk_code(code: Seq<char>) -> bool {
    ||| code == "BG"@
    ||| code == "HR"@
    ||| code == "CZ"@
    ||| code == "HU"@
    ||| code == "RO"@
    ||| code == "SK"@
    ||| code == "SI"@
}

/// A risk entry carries the level its code should have.
pub open spec fn level_rule(t: (Seq<char>, (Seq<char>, Seq<char>))) -> bool {
    t.1.1 == if medium_risk_code(t.0) {
        "MEDIUM"@
    } else {
        "LOW"@
    }
}

/// A risk table without its levels.
pub open spec fn without_levels(t: Seq<(Seq<char>, (Seq<char>, Seq<char>))>) -> Seq<(Seq<char>, Seq<char>)> {
    t.map_values(|e: (Seq<char>, (Seq<char>, Seq<char>))| (e.0, e.1.0))
}

proof fn lemma_risk_names()
    ensures
        without_levels(spec_whitelisted_countries_risk()) == spec_whitelisted_countries(),
{
    assert(without_levels(spec_whitelisted_countries_risk()) =~= spec_whitelisted_countries());
}

/// A two-letter code other than the seven medium-risk codes is not one of
/// them.
proof fn lemma_not_medium(c: Seq<char>)
    requires
        c.len() == 2,
        !((c[0] == 'B' && c[1] == 'G') || (c[0] == 'H' && c[1] == 'R') || (c[0] == 'C' && c[1] == 'Z')
            || (c[0] == 'H' && c[1] == 'U') || (c[0] == 'R' && c[1] == 'O') || (c[0] == 'S' && c[1] == 'K')
            || (c[0] == 'S' && c[1] == 'I')),
    ensures
        !medium_risk_code(c),
{
    reveal_strlit("BG");
    reveal_strlit("HR");
    reveal_strlit("CZ");
    reveal_strlit("HU");
    reveal_strlit("RO");
    reveal_strlit("SK");
    reveal_strlit("SI");
}

#[verifier::rlimit(100)]
proof fn lemma_risk_levels()
    ensures
        forall|i: int|
            0 <= i < spec_whitelisted_countries_risk().len() ==> level_rule(
                #[trigger] spec_whitelisted_countries_risk()[i],
            ),
{
    let t = spec_whitelisted_countries_risk();
    assert forall|i: int| 0 <= i < t.len() implies level_rule(#[trigger] t[i]) by {
        if i == 0 {
            assert(level_rule(t[0])) by {
                reveal_strlit("AU");
                lemma_not_medium("AU"@);
            }
        } else if i == 1 {
            assert(level_rule(t[1])) by {
                reveal_strlit("AR");
                lemma_not_medium("AR"@);
            }
        } else if i == 2 {
            assert(level_rule(t[2])) by {
                reveal_strlit("AT");
                lemma_not_medium("AT"@);
            }
        } else if i == 3 {
            assert(level_rule(t[3])) by {
                reveal_strlit("BE");
                lemma_not_medium("BE"@);
            }
        } else if i == 4 {
            assert(level_rule(t[4]));
        } else if i == 5 {
            assert(level_rule(t[5])) by {
                reveal_strlit("CA");
                lemma_not_medium("CA"@);
            }
        } else if i == 6 {
            assert(level_rule(t[6]));
        } else if i == 7 {
            assert(level_rule(t[7]));
        } else if i == 8 {
            assert(level_rule(t[8])) by {
                reveal_strlit("DK");
                lemma_not_medium("DK"@);
            }
        } else if i == 9 {
            assert(level_rule(t[9])) by {
                reveal_strlit("EE");
                lemma_not_medium("EE"@);
            }
        } else if i == 10 {
            assert(level_rule(t[10])) by {
                reveal_strlit("FI");
                lemma_not_medium("FI"@);
            }
        } else if i == 11 {
            assert(level_rule(t[11])) by {
                reveal_strlit("FR");
                lemma_not_medium("FR"@);
            }
        } else if i == 12 {
            assert(level_rule(t[12])) by {
                reveal_strlit("DE");
                lemma_not_medium("DE"@);
            }
        } else if i == 13 {
            assert(level_rule(t[13])) by {
                reveal_strlit("GR");
                lemma_not_medium("GR"@);
            }
        } else if i == 14 {
            assert(level_rule(t[14])) by {
                reveal_strlit("GI");
                lemma_not_medium("GI"@);
            }
        } else if i == 15 {
            assert(level_rule(t[15]));
        } else if i == 16 {
            assert(level_rule(t[16])) by {
                reveal_strlit("IS");
                lemma_not_medium("IS"@);
            }
        } else if i == 17 {
            assert(level_rule(t[17])) by {
                reveal_strlit("IE");
                lemma_not_medium("IE"@);
            }
        } else if i == 18 {
            assert(level_rule(t[18])) by {
                reveal_strlit("IT");
                lemma_not_medium("IT"@);
            }
        } else if i == 19 {
            assert(level_rule(t[19])) by {
                reveal_strlit("LV");
                lemma_not_medium("LV"@);
            }
        } else if i == 20 {
            assert(level_rule(t[20])) by {
                reveal_strlit("LI");
                lemma_not_medium("LI"@);
            }
        } else if i == 21 {
            assert(level_rule(t[21])) by {
                reveal_strlit("LT");
                lemma_not_medium("LT"@);
            }
        } else if i == 22 {
            assert(level_rule(t[22])) by {
                reveal_strlit("LU");
                lemma_not_medium("LU"@);
            }
        } else if i == 23 {
            assert(level_rule(t[23])) by {
                reveal_strlit("ME");
                lemma_not_medium("ME"@);
            }
        } else if i == 24 {
            assert(level_rule(t[24])) by {
                reveal_strlit("NL");
                lemma_not_medium("NL"@);
            }
        } else if i == 25 {
            assert(level_rule(t[25])) by {
                reveal_strlit("NZ");
                lemma_not_medium("NZ"@);
            }
        } else if i == 26 {
            assert(level_rule(t[26])) by {
                reveal_strlit("NO");
                lemma_not_medium("NO"@);
            }
        } else if i == 27 {
            assert(level_rule(t[27])) by {
                reveal_strlit("PL");
                lemma_not_medium("PL"@);
            }
        } else if i == 28 {
            assert(level_rule(t[28])) by {
                reveal_strlit("PT");
                lemma_not_medium("PT"@);
            }
        } else if i == 29 {
            assert(level_rule(t[29]));
        } else if i == 30 {
            assert(level_rule(t[30]));
        } else if i == 31 {
            assert(level_rule(t[31]));
        } else if i == 32 {
            assert(level_rule(t[32])) by {
                reveal_strlit("ES");
                lemma_not_medium("ES"@);
            }
        } else if i == 33 {
            assert(level_rule(t[33])) by {
                reveal_strlit("SE");
                lemma_not_medium("SE"@);
            }
        } else if i == 34 {
            assert(level_rule(t[34])) by {
                reveal_strlit("CH");
                lemma_not_medium("CH"@);
            }
        } else if i == 35 {
            assert(level_rule(t[35])) by {
                reveal_strlit("US");
                lemma_not_medium("US"@);
            }
        } else {
        }
    }
}

/// The value for a key in a table without levels is the name of that key's
/// entry.
proof fn lemma_lookup_without_levels(t: Seq<(Seq<char>, (Seq<char>, Seq<char>))>, key: Seq<char>)
    ensures
        lookup(without_levels(t), key) == match lookup(t, key) {
            Some(v) => Some(v.0),
            None => None::<Seq<char>>,
        },
    decreases t.len(),
{
    if t.len() > 0 {
        assert(without_levels(t).drop_first() =~= without_levels(t.drop_first()));
        lemma_lookup_without_levels(t.drop_first(), key);
    }
}

/// A key found in a table is the key of one of its entries, with that
/// entry's value.
proof fn lemma_lookup_found<V>(t: Seq<(Seq<char>, V)>, key: Seq<char>)
    requires
        lookup(t, key) is Some,
    ensures
        exists|i: int| 0 <= i < t.len() && (#[trigger] t[i]).0 == key && Some(t[i].1) == lookup(t, key),
    decreases t.len(),
{
    if t[0].0 != key {
        lemma_lookup_found(t.drop_first(), key);
        let i = choose|i: int|
            0 <= i < t.drop_first().len() && (#[trigger] t.drop_first()[i]).0 == key && Some(
                t.drop_first()[i].1,
            ) == lookup(t.drop_first(), key);
        assert(t[i + 1] == t.drop_first()[i]);
    } else {
        assert(t[0].0 == key);
    }
}

/// The risk table lists exactly the served countries, under the same names;
/// its level is MEDIUM for BG, HR, CZ, HU, RO, SK and SI and LOW for every
/// other country.
pub proof fn lemma_risk_table_matches_whitelist(code: Seq<char>)
    ensures
        (lookup(spec_whitelisted_countries_risk(), code) is Some) == (lookup(
            spec_whitelisted_countries(),
            code,
        ) is Some),
        match lookup(spec_whitelisted_countries_risk(), code) {
            Some(v) => lookup(spec_whitelisted_countries(), code) == Some(v.0) && v.1 == if medium_risk_code(
                code,
            ) {
                "MEDIUM"@
            } else {
                "LOW"@
            },
            None => true,
        },
{
    let t = spec_whitelisted_countries_risk();
    lemma_risk_names();
    lemma_lookup_without_levels(t, code);
    if lookup(t, code) is Some {
        lemma_lookup_found(t, code);
        lemma_risk_levels();
        let i = choose|i: int| 0 <= i < t.len() && (#[trigger] t[i]).0 == code && Some(t[i].1) == lookup(t, code);
        assert(level_rule(t[i]));
    }
}

} // verus!
