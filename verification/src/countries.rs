//! The blocked-country computation: the full ISO 3166 country set minus a
//! channel's available-country list. An empty difference is reported as
//! "no restriction" (`None`), never as an empty list.

use vstd::prelude::*;
use vstd::string::StrSliceExecFns;
use crate::strutil::str_eq;

verus! {

/// All two-letter country codes, concatenated in canonical order.
pub open spec fn country_code_chars() -> Seq<char> {
    "ADAEAFAGAIALAMAOAQARASATAUAWAXAZBABBBDBEBFBGBHBIBJBLBMBNBOBQBRBSBTBVBWBYBZCACCCDCFCGCHCICKCLCMCNCOCRCUCVCWCXCYCZDEDJDKDMDODZECEEEGEHERESETFIFJFKFMFOFRGAGBGDGEGFGGGHGIGLGMGNGPGQGRGSGTGUGWGYHKHMHNHRHTHUIDIEILIMINIOIQIRISITJEJMJOJPKEKGKHKIKMKNKPKRKWKYKZLALBLCLILKLRLSLTLULVLYMAMCMDMEMFMGMHMKMLMMMNMOMPMQMRMSMTMUMVMWMXMYMZNANCNENFNGNINLNONPNRNUNZOMPAPEPFPGPHPKPLPMPNPRPSPTPWPYQARERORSRURWSASBSCSDSESGSHSISJSKSLSMSNSOSRSSSTSVSXSYSZTCTDTFTGTHTJTKTLTMTNTOTRTTTVTWTZUAUGUMUSUYUZVAVCVEVGVIVNVUWFWSYEYTZAZMZW"@
}

/// How many country codes there are.
pub open spec fn country_count() -> int {
    249
}

/// The full country set, code by code.
pub open spec fn all_country_codes() -> Seq<Seq<char>> {
    Seq::new(country_count() as nat, |i: int| country_code_chars().subrange(2 * i, 2 * i + 2))
}

/// The countries a channel is blocked in: every code of the full set that
/// the available list does not contain, in canonical order.
pub open spec fn blocked_codes(avail: Seq<Seq<char>>) -> Seq<Seq<char>> {
    all_country_codes().filter(|c: Seq<char>| !avail.contains(c))
}

/// True when the available list names `code`.
fn list_contains_code(available: &Vec<String>, code: &str) -> (r: bool)
    ensures
        r == available.deep_view().contains(code@),
{
    let mut j: usize = 0;
    while j < available.len()
        invariant
            j <= available.len(),
            forall|k: int| 0 <= k < j ==> available.deep_view()[k] != code@,
        decreases available.len() - j,
    {
        if str_eq(available[j].as_str(), code) {
            proof {
                assert(available.deep_view()[j as int] == code@);
            }
            return true;
        }
        j += 1;
    }
    false
}

/// The blocked-country list for one available-country list, or `None`
/// when nothing is blocked.
pub fn compute_blocked_countries(available: &Vec<String>) -> (r: Option<Vec<String>>)
    ensures
        match r {
            Some(blocked) => blocked.deep_view() == blocked_codes(available.deep_view())
                && blocked.deep_view().len() > 0,
            None => blocked_codes(available.deep_view()).len() == 0,
        },
{
    let master = "ADAEAFAGAIALAMAOAQARASATAUAWAXAZBABBBDBEBFBGBHBIBJBLBMBNBOBQBRBSBTBVBWBYBZCACCCDCFCGCHCICKCLCMCNCOCRCUCVCWCXCYCZDEDJDKDMDODZECEEEGEHERESETFIFJFKFMFOFRGAGBGDGEGFGGGHGIGLGMGNGPGQGRGSGTGUGWGYHKHMHNHRHTHUIDIEILIMINIOIQIRISITJEJMJOJPKEKGKHKIKMKNKPKRKWKYKZLALBLCLILKLRLSLTLULVLYMAMCMDMEMFMGMHMKMLMMMNMOMPMQMRMSMTMUMVMWMXMYMZNANCNENFNGNINLNONPNRNUNZOMPAPEPFPGPHPKPLPMPNPRPSPTPWPYQARERORSRURWSASBSCSDSESGSHSISJSKSLSMSNSOSRSSSTSVSXSYSZTCTDTFTGTHTJTKTLTMTNTOTRTTTVTWTZUAUGUMUSUYUZVAVCVEVGVIVNVUWFWSYEYTZAZMZW";
    proof {
        reveal_strlit(
            "ADAEAFAGAIALAMAOAQARASATAUAWAXAZBABBBDBEBFBGBHBIBJBLBMBNBOBQBRBSBTBVBWBYBZCACCCDCFCGCHCICKCLCMCNCOCRCUCVCWCXCYCZDEDJDKDMDODZECEEEGEHERESETFIFJFKFMFOFRGAGBGDGEGFGGGHGIGLGMGNGPGQGRGSGTGUGWGYHKHMHNHRHTHUIDIEILIMINIOIQIRISITJEJMJOJPKEKGKHKIKMKNKPKRKWKYKZLALBLCLILKLRLSLTLULVLYMAMCMDMEMFMGMHMKMLMMMNMOMPMQMRMSMTMUMVMWMXMYMZNANCNENFNGNINLNONPNRNUNZOMPAPEPFPGPHPKPLPMPNPRPSPTPWPYQARERORSRURWSASBSCSDSESGSHSISJSKSLSMSNSOSRSSSTSVSXSYSZTCTDTFTGTHTJTKTLTMTNTOTRTTTVTWTZUAUGUMUSUYUZVAVCVEVGVIVNVUWFWSYEYTZAZMZW",
        );
    }
    let ghost pred = |c: Seq<char>| !available.deep_view().contains(c);
    let mut blocked: Vec<String> = Vec::new();
    let mut i: usize = 0;
    proof {
        assert(blocked.deep_view() =~= all_country_codes().take(0).filter(pred));
    }
    while i < 249
        invariant
            i <= 249,
            master@ == country_code_chars(),
            master@.len() == 498,
            blocked.deep_view() == all_country_codes().take(i as int).filter(pred),
            pred == (|c: Seq<char>| !available.deep_view().contains(c)),
        decreases 249 - i,
    {
        let code: &str = master.substring_char(2 * i, 2 * i + 2);
        proof {
            assert(code@ == all_country_codes()[i as int]);
        }
        let ghost pre = blocked.deep_view();
        let hit = list_contains_code(available, code);
        if !hit {
            blocked.push(code.to_owned());
            proof {
                assert(blocked.deep_view() =~= pre.push(code@));
            }
        }
        proof {
            reveal(Seq::filter);
            let taken = all_country_codes().take(i + 1);
            assert(taken.drop_last() =~= all_country_codes().take(i as int));
            assert(taken.last() == all_country_codes()[i as int]);
            assert(blocked.deep_view() == taken.filter(pred));
        }
        i += 1;
    }
    proof {
        assert(all_country_codes().take(249) =~= all_country_codes());
    }
    if blocked.len() == 0 {
        proof {
            assert(blocked.deep_view().len() == 0);
        }
        None
    } else {
        proof {
            assert(blocked.deep_view().len() > 0);
        }
        Some(blocked)
    }
}

/// When every country of the full set is available, nothing is blocked.
pub proof fn lemma_full_availability_blocks_nothing(avail: Seq<Seq<char>>)
    requires
        forall|i: int|
            0 <= i < all_country_codes().len() ==> avail.contains(
                #[trigger] all_country_codes()[i],
            ),
    ensures
        blocked_codes(avail).len() == 0,
{
    lemma_filter_of_none_kept(all_country_codes(), |c: Seq<char>| !avail.contains(c));
}

/// Filtering with a predicate that no element satisfies yields nothing.
proof fn lemma_filter_of_none_kept<A>(s: Seq<A>, pred: spec_fn(A) -> bool)
    requires
        forall|i: int| 0 <= i < s.len() ==> !pred(#[trigger] s[i]),
    ensures
        s.filter(pred).len() == 0,
    decreases s.len(),
{
    reveal(Seq::filter);
    if s.len() > 0 {
        assert(forall|i: int| 0 <= i < s.drop_last().len() ==> s.drop_last()[i] == s[i]);
        lemma_filter_of_none_kept(s.drop_last(), pred);
    }
}

/// Every blocked country is a code of the full set: the difference never
/// invents a code outside it.
pub proof fn lemma_blocked_codes_are_countries(avail: Seq<Seq<char>>, i: int)
    requires
        0 <= i < blocked_codes(avail).len(),
    ensures
        all_country_codes().contains(blocked_codes(avail)[i]),
        !avail.contains(blocked_codes(avail)[i]),
{
    lemma_filter_is_subset(all_country_codes(), |c: Seq<char>| !avail.contains(c), i);
}

/// Every element a filter keeps comes from the sequence filtered, and
/// satisfies the predicate.
proof fn lemma_filter_is_subset<A>(s: Seq<A>, pred: spec_fn(A) -> bool, i: int)
    requires
        0 <= i < s.filter(pred).len(),
    ensures
        s.contains(s.filter(pred)[i]),
        pred(s.filter(pred)[i]),
    decreases s.len(),
{
    reveal(Seq::filter);
    if s.len() > 0 {
        let sub = s.drop_last().filter(pred);
        if i < sub.len() {
            lemma_filter_is_subset(s.drop_last(), pred, i);
            let j = choose|j: int|
                0 <= j < s.drop_last().len() && s.drop_last()[j] == s.drop_last().filter(pred)[i];
            assert(s[j] == s.filter(pred)[i]);
        } else {
            assert(s.filter(pred)[i] == s.last());
            assert(s[s.len() - 1] == s.last());
        }
    }
}

} // verus!
