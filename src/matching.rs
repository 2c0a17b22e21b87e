use vstd::prelude::*;

verus! {

/// The code point of `c` with the ASCII letters `A`..`Z` folded to lower case.
pub open spec fn fold_ascii(c: char) -> int {
    let v = c as u32;
    if 65 <= v <= 90 {
        v + 32
    } else {
        v as int
    }
}

/// `a` and `b` hold the same characters, ASCII letters compared without case.
pub open spec fn same_ignoring_ascii_case(a: Seq<char>, b: Seq<char>) -> bool {
    &&& a.len() == b.len()
    &&& forall|i: int| 0 <= i < a.len() ==> #[trigger] fold_ascii(a[i]) == fold_ascii(b[i])
}

fn fold_char(c: char) -> (r: u32)
    ensures
        r == fold_ascii(c),
{
    let v = c as u32;
    if 65 <= v && v <= 90 {
        v + 32
    } else {
        v
    }
}

/// The characters of `s`, in order.
pub(crate) fn chars_of(s: &str) -> (r: Vec<char>)
    ensures
        r@ == s@,
{
    let mut out: Vec<char> = Vec::new();
    for c in it: s.chars()
        invariant
            it.seq() == s@,
            out@ == it.seq().take(it.index() as int),
    {
        out.push(c);
    }
    out
}

/// Compares two strings with ASCII letters taken without case.
pub fn eq_ignore_ascii_case(a: &str, b: &str) -> (r: bool)
    ensures
        r == same_ignoring_ascii_case(a@, b@),
{
    let x = chars_of(a);
    let y = chars_of(b);
    if x.len() != y.len() {
        return false;
    }
    let mut i: usize = 0;
    while i < x.len()
        invariant
            x@ == a@,
            y@ == b@,
            x.len() == y.len(),
            i <= x.len(),
            forall|j: int| 0 <= j < i ==> #[trigger] fold_ascii(a@[j]) == fold_ascii(b@[j]),
        decreases x.len() - i,
    {
        if fold_char(x[i]) != fold_char(y[i]) {
            return false;
        }
        i = i + 1;
    }
    true
}


/// Compares two strings character by character.
pub(crate) fn same_text(a: &str, b: &str) -> (r: bool)
    ensures
        r == (a@ == b@),
{
    let x = chars_of(a);
    let y = chars_of(b);
    if x.len() != y.len() {
        return false;
    }
    let mut i: usize = 0;
    while i < x.len()
        invariant
            x@ == a@,
            y@ == b@,
            x.len() == y.len(),
            i <= x.len(),
            forall|j: int| 0 <= j < i ==> #[trigger] a@[j] == b@[j],
        decreases x.len() - i,
    {
        if x[i] != y[i] {
            return false;
        }
        i = i + 1;
    }
    proof {
        assert(a@ =~= b@);
    }
    true
}

/// What a rule's value is compared with.
#[derive(Clone, Copy, Debug, PartialEq, Eq, Structural)]
pub enum MatchType {
    Country,
    Region,
    Continent,
}

/// The stored name of each kind of rule.
pub open spec fn match_type_named(name: Seq<char>) -> Option<MatchType> {
    if name == "country"@ {
        Some(MatchType::Country)
    } else if name == "region"@ {
        Some(MatchType::Region)
    } else if name == "continent"@ {
        Some(MatchType::Continent)
    } else {
        None
    }
}

impl MatchType {
    /// Whether a rule of this kind with value `value` holds for a client
    /// whose country code is `country`. The lookup yields country codes
    /// only, so region and continent rules compare against that code too.
    pub open spec fn admits(self, value: Seq<char>, country: Seq<char>) -> bool {
        match self {
            MatchType::Country => same_ignoring_ascii_case(value, country),
            MatchType::Region => same_ignoring_ascii_case(value, country),
            MatchType::Continent => same_ignoring_ascii_case(value, country),
        }
    }

    /// The kind stored under `name` (`country`, `region` or `continent`),
    /// or `None` for any other text.
    pub fn from_name(name: &str) -> (r: Option<MatchType>)
        ensures
            r == match_type_named(name@),
    {
        if same_text(name, "country") {
            Some(MatchType::Country)
        } else if same_text(name, "region") {
            Some(MatchType::Region)
        } else if same_text(name, "continent") {
            Some(MatchType::Continent)
        } else {
            None
        }
    }

    /// Decides `admits` for this kind.
    pub fn holds_for(&self, value: &str, country: &str) -> (r: bool)
        ensures
            r == self.admits(value@, country@),
    {
        match self {
            MatchType::Country => country_matches(value, country),
            MatchType::Region => region_matches(value, country),
            MatchType::Continent => continent_matches(value, country),
        }
    }
}

fn country_matches(value: &str, country: &str) -> (r: bool)
    ensures
        r == MatchType::Country.admits(value@, country@),
{
    eq_ignore_ascii_case(value, country)
}

fn region_matches(value: &str, country: &str) -> (r: bool)
    ensures
        r == MatchType::Region.admits(value@, country@),
{
    eq_ignore_ascii_case(value, country)
}

fn continent_matches(value: &str, country: &str) -> (r: bool)
    ensures
        r == MatchType::Continent.admits(value@, country@),
{
    eq_ignore_ascii_case(value, country)
}

/// A routing rule: clients whose location satisfies
/// (`match_type`, `match_value`) are sent to `target`.
#[derive(Debug)]
pub struct GeoRule {
    pub id: String,
    pub match_type: MatchType,
    pub match_value: String,
    pub target: String,
}

impl Clone for GeoRule {
    fn clone(&self) -> (r: Self)
        ensures
            r == *self,
    {
        GeoRule {
            id: self.id.clone(),
            match_type: self.match_type,
            match_value: self.match_value.clone(),
            target: self.target.clone(),
        }
    }
}

impl GeoRule {
    /// The rule holds for a client located in `country`.
    pub open spec fn matches(self, country: Seq<char>) -> bool {
        self.match_type.admits(self.match_value@, country)
    }

    /// Decides `matches`.
    pub fn matches_country(&self, country: &str) -> (r: bool)
        ensures
            r == self.matches(country@),
    {
        self.match_type.holds_for(self.match_value.as_str(), country)
    }
}

/// The target of the first rule at or after position `i` that holds for
/// `country`, if any.
pub open spec fn first_match_from(rules: Seq<GeoRule>, country: Seq<char>, i: int) -> Option<
    Seq<char>,
>
    decreases rules.len() - i,
{
    if i < 0 || i >= rules.len() {
        None
    } else if rules[i].matches(country) {
        Some(rules[i].target@)
    } else {
        first_match_from(rules, country, i + 1)
    }
}

/// The target of the first rule in list order that holds for `country`.
pub open spec fn first_match(rules: Seq<GeoRule>, country: Seq<char>) -> Option<Seq<char>> {
    first_match_from(rules, country, 0)
}

/// The target of an optional string.
pub open spec fn opt_view(o: Option<String>) -> Option<Seq<char>> {
    match o {
        Some(s) => Some(s@),
        None => None,
    }
}

/// Scans `rules` in order and returns the target of the first one that
/// holds for `country`.
pub fn first_match_target(rules: &[GeoRule], country: &str) -> (r: Option<String>)
    ensures
        opt_view(r) == first_match(rules@, country@),
{
    let mut i: usize = 0;
    while i < rules.len()
        invariant
            i <= rules@.len(),
            first_match(rules@, country@) == first_match_from(rules@, country@, i as int),
        decreases rules.len() - i,
    {
        if rules[i].matches_country(country) {
            return Some(rules[i].target.clone());
        }
        i = i + 1;
    }
    None
}


proof fn lemma_first_match_from_wins(rules: Seq<GeoRule>, country: Seq<char>, i: int, k: int)
    requires
        0 <= i <= k < rules.len(),
        rules[k].matches(country),
        forall|j: int| i <= j < k ==> !#[trigger] rules[j].matches(country),
    ensures
        first_match_from(rules, country, i) == Some(rules[k].target@),
    decreases k - i,
{
    if i < k {
        lemma_first_match_from_wins(rules, country, i + 1, k);
    }
}

proof fn lemma_first_match_from_none(rules: Seq<GeoRule>, country: Seq<char>, i: int)
    requires
        0 <= i <= rules.len(),
    ensures
        first_match_from(rules, country, i) is None <==> forall|j: int|
            i <= j < rules.len() ==> !#[trigger] rules[j].matches(country),
    decreases rules.len() - i,
{
    if i < rules.len() {
        lemma_first_match_from_none(rules, country, i + 1);
    }
}

/// First match wins: where the rule at position `k` is the first that holds
/// for `country`, its target is chosen, whatever later rules say.
pub proof fn lemma_first_match_wins(rules: Seq<GeoRule>, country: Seq<char>, k: int)
    requires
        0 <= k < rules.len(),
        rules[k].matches(country),
        forall|j: int| 0 <= j < k ==> !#[trigger] rules[j].matches(country),
    ensures
        first_match(rules, country) == Some(rules[k].target@),
{
    lemma_first_match_from_wins(rules, country, 0, k);
}

/// No target is chosen exactly when no rule holds for `country`; in
/// particular an empty rule list chooses none.
pub proof fn lemma_no_match(rules: Seq<GeoRule>, country: Seq<char>)
    ensures
        first_match(rules, country) is None <==> forall|j: int|
            0 <= j < rules.len() ==> !#[trigger] rules[j].matches(country),
        rules.len() == 0 ==> first_match(rules, country) is None,
{
    lemma_first_match_from_none(rules, country, 0);
}

/// A target chosen for `country` is that of some rule that holds for it,
/// with no rule before it holding.
pub proof fn lemma_match_is_first(rules: Seq<GeoRule>, country: Seq<char>)
    requires
        first_match(rules, country) is Some,
    ensures
        exists|k: int|
            0 <= k < rules.len() && #[trigger] rules[k].matches(country) && first_match(rules, country)
                == Some(rules[k].target@) && forall|j: int|
                0 <= j < k ==> !#[trigger] rules[j].matches(country),
{
    lemma_first_match_from_none(rules, country, 0);
    let k = choose|k: int| 0 <= k < rules.len() && #[trigger] rules[k].matches(country);
    lemma_least_match(rules, country, k);
}

proof fn lemma_least_match(rules: Seq<GeoRule>, country: Seq<char>, k: int)
    requires
        0 <= k < rules.len(),
        rules[k].matches(country),
    ensures
        exists|m: int|
            0 <= m < rules.len() && #[trigger] rules[m].matches(country) && first_match(rules, country)
                == Some(rules[m].target@) && forall|j: int|
                0 <= j < m ==> !#[trigger] rules[j].matches(country),
    decreases k,
{
    if forall|j: int| 0 <= j < k ==> !#[trigger] rules[j].matches(country) {
        lemma_first_match_wins(rules, country, k);
    } else {
        let j = choose|j: int| 0 <= j < k && #[trigger] rules[j].matches(country);
        lemma_least_match(rules, country, j);
    }
}

/// Country codes are compared without regard to ASCII case: two codes that
/// differ only in case choose the same target.
pub proof fn lemma_case_insensitive(rules: Seq<GeoRule>, a: Seq<char>, b: Seq<char>)
    requires
        same_ignoring_ascii_case(a, b),
    ensures
        first_match(rules, a) == first_match(rules, b),
{
    assert forall|j: int| 0 <= j < rules.len() implies #[trigger] rules[j].matches(a)
        == rules[j].matches(b) by {
        let v = rules[j].match_value@;
        if same_ignoring_ascii_case(v, a) {
            assert forall|i: int| 0 <= i < v.len() implies #[trigger] fold_ascii(v[i])
                == fold_ascii(b[i]) by {
                assert(fold_ascii(v[i]) == fold_ascii(a[i]));
                assert(fold_ascii(a[i]) == fold_ascii(b[i]));
            }
        }
        if same_ignoring_ascii_case(v, b) {
            assert forall|i: int| 0 <= i < v.len() implies #[trigger] fold_ascii(v[i])
                == fold_ascii(a[i]) by {
                assert(fold_ascii(v[i]) == fold_ascii(b[i]));
                assert(fold_ascii(a[i]) == fold_ascii(b[i]));
            }
        }
    }
    lemma_same_from(rules, a, b, 0);
}

proof fn lemma_same_from(rules: Seq<GeoRule>, a: Seq<char>, b: Seq<char>, i: int)
    requires
        0 <= i <= rules.len(),
        forall|j: int| 0 <= j < rules.len() ==> #[trigger] rules[j].matches(a) == rules[j].matches(b),
    ensures
        first_match_from(rules, a, i) == first_match_from(rules, b, i),
    decreases rules.len() - i,
{
    if i < rules.len() {
        lemma_same_from(rules, a, b, i + 1);
    }
}

/// Of two rules, the one listed first decides when both hold; when exactly
/// one holds, it decides in either order.
pub proof fn lemma_two_rule_order(first: GeoRule, second: GeoRule, country: Seq<char>)
    ensures
        first.matches(country) ==> first_match(seq![first, second], country) == Some(
            first.target@,
        ),
        second.matches(country) ==> first_match(seq![second, first], country) == Some(
            second.target@,
        ),
        first.matches(country) && !second.matches(country) ==> first_match(
            seq![second, first],
            country,
        ) == Some(first.target@),
        !first.matches(country) && !second.matches(country) ==> first_match(
            seq![first, second],
            country,
        ) is None && first_match(seq![second, first], country) is None,
{
    let fwd = seq![first, second];
    let rev = seq![second, first];
    assert(fwd[0] == first && fwd[1] == second);
    assert(rev[0] == second && rev[1] == first);
    assert(first_match_from(fwd, country, 2) is None);
    assert(first_match_from(rev, country, 2) is None);
    assert(first_match_from(fwd, country, 1) == first_match_from(seq![second], country, 0));
    assert(first_match_from(rev, country, 1) == first_match_from(seq![first], country, 0));
    assert(first_match_from(seq![first], country, 1) is None);
    assert(first_match_from(seq![second], country, 1) is None);
}


/// Where at most one rule of a list holds for `country`, the order of the
/// list does not matter: any reordering of it chooses the same target.
pub proof fn lemma_order_irrelevant_single_match(
    rules: Seq<GeoRule>,
    reordered: Seq<GeoRule>,
    country: Seq<char>,
)
    requires
        reordered.to_multiset() == rules.to_multiset(),
        forall|i: int, j: int|
            0 <= i < rules.len() && 0 <= j < rules.len() && #[trigger] rules[i].matches(country)
                && #[trigger] rules[j].matches(country) ==> i == j,
    ensures
        first_match(reordered, country) == first_match(rules, country),
{
    rules.to_multiset_ensures();
    reordered.to_multiset_ensures();
    assert forall|k: int| 0 <= k < reordered.len() implies exists|i: int|
        0 <= i < rules.len() && #[trigger] rules[i] == #[trigger] reordered[k] by {
        assert(reordered.contains(reordered[k]));
        assert(reordered.to_multiset().count(reordered[k]) > 0);
        assert(rules.contains(reordered[k]));
    }
    if first_match(rules, country) is Some {
        lemma_match_is_first(rules, country);
        let k = choose|k: int|
            0 <= k < rules.len() && #[trigger] rules[k].matches(country) && first_match(
                rules,
                country,
            ) == Some(rules[k].target@) && forall|j: int|
                0 <= j < k ==> !#[trigger] rules[j].matches(country);
        assert(rules.contains(rules[k]));
        assert(rules.to_multiset().count(rules[k]) > 0);
        assert(reordered.contains(rules[k]));
        let m = choose|m: int| 0 <= m < reordered.len() && reordered[m] == rules[k];
        assert(reordered[m].matches(country));
        lemma_no_match(reordered, country);
        lemma_match_is_first(reordered, country);
        let n = choose|n: int|
            0 <= n < reordered.len() && #[trigger] reordered[n].matches(country) && first_match(
                reordered,
                country,
            ) == Some(reordered[n].target@) && forall|j: int|
                0 <= j < n ==> !#[trigger] reordered[j].matches(country);
        let i = choose|i: int| 0 <= i < rules.len() && #[trigger] rules[i] == reordered[n];
        assert(rules[i].matches(country));
        assert(i == k);
    } else {
        lemma_no_match(rules, country);
        lemma_no_match(reordered, country);
        assert forall|j: int| 0 <= j < reordered.len() implies !#[trigger] reordered[j].matches(
            country,
        ) by {
            let i = choose|i: int| 0 <= i < rules.len() && #[trigger] rules[i] == reordered[j];
            assert(!rules[i].matches(country));
        }
    }
}

} // verus!
