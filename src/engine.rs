use vstd::prelude::*;

use crate::matching::{first_match, first_match_target, lemma_no_match, opt_view, GeoRule};
use crate::provider::{country_in, ClientIp, GeoDB};

verus! {

/// The outcome of evaluating the rules for one client. Only `Target` is a
/// decision; the other variants say why none was made, and none of them is
/// an error.
#[derive(Debug)]
pub enum Decision {
    /// The first matching rule's target.
    Target(String),
    /// No geographic dataset is loaded.
    NoGeoCapability,
    /// The dataset maps the address to no country.
    UnclassifiedAddress,
    /// The country is known but no rule holds for it.
    NoRuleMatched,
}

impl Decision {
    /// The target decided, if any.
    pub open spec fn target_view(self) -> Option<Seq<char>> {
        match self {
            Decision::Target(t) => Some(t@),
            _ => None,
        }
    }

    /// The target decided, if any.
    pub fn into_target(self) -> (r: Option<String>)
        ensures
            opt_view(r) == self.target_view(),
    {
        match self {
            Decision::Target(t) => Some(t),
            _ => None,
        }
    }
}

/// `d` is the decision for `rules` once the lookup has given `country`.
pub open spec fn decided_for_country(
    d: Decision,
    rules: Seq<GeoRule>,
    country: Option<Seq<char>>,
) -> bool {
    match country {
        None => d is UnclassifiedAddress,
        Some(c) => match first_match(rules, c) {
            Some(t) => d is Target && d->Target_0@ == t,
            None => d is NoRuleMatched,
        },
    }
}

/// `d` is the decision for `rules`, the dataset `dataset` (if one is
/// loaded) and the client address with octets `address`.
pub open spec fn decided(
    d: Decision,
    rules: Seq<GeoRule>,
    dataset: Option<Seq<u8>>,
    address: Seq<u8>,
) -> bool {
    match dataset {
        None => d is NoGeoCapability,
        Some(data) => decided_for_country(d, rules, country_in(data, address)),
    }
}

/// The target handed back for a client: none without a dataset, none for an
/// address the dataset does not place, else the first matching rule's.
pub open spec fn geo_target(
    rules: Seq<GeoRule>,
    dataset: Option<Seq<u8>>,
    address: Seq<u8>,
) -> Option<Seq<char>> {
    match dataset {
        None => None,
        Some(data) => match country_in(data, address) {
            None => None,
            Some(c) => first_match(rules, c),
        },
    }
}

/// Decides for `rules` once the client's country is known (`None`: the
/// address is not classified).
pub fn decide_for_country(rules: &[GeoRule], country: Option<&str>) -> (r: Decision)
    ensures
        decided_for_country(r, rules@, match country {
            Some(c) => Some(c@),
            None => None,
        }),
{
    match country {
        None => Decision::UnclassifiedAddress,
        Some(c) => match first_match_target(rules, c) {
            Some(t) => Decision::Target(t),
            None => Decision::NoRuleMatched,
        },
    }
}

/// An ordered rule list together with the dataset, if any, that locates
/// clients.
pub struct GeoRuleEngine {
    rules: Vec<GeoRule>,
    db: Option<GeoDB>,
}

impl GeoRuleEngine {
    /// The rules, in the order given.
    pub closed spec fn rule_list(&self) -> Seq<GeoRule> {
        self.rules@
    }

    /// The bytes of the loaded dataset, if there is one.
    pub closed spec fn dataset(&self) -> Option<Seq<u8>> {
        match self.db {
            Some(db) => Some(db.dataset()),
            None => None,
        }
    }

    /// An engine with no rules over the given dataset.
    pub fn new(db: Option<GeoDB>) -> (r: GeoRuleEngine)
        ensures
            r.rule_list() == Seq::<GeoRule>::empty(),
            r.dataset() == match db {
                Some(d) => Some(d.dataset()),
                None => None::<Seq<u8>>,
            },
    {
        GeoRuleEngine { rules: Vec::new(), db }
    }

    /// Appends a rule after the existing ones.
    pub fn add_rule(&mut self, rule: GeoRule)
        ensures
            final(self).rule_list() == old(self).rule_list().push(rule),
            final(self).dataset() == old(self).dataset(),
    {
        self.rules.push(rule);
    }

    /// Replaces the rule list, keeping its order.
    pub fn set_rules(&mut self, rules: Vec<GeoRule>)
        ensures
            final(self).rule_list() == rules@,
            final(self).dataset() == old(self).dataset(),
    {
        self.rules = rules;
    }

    /// The rules, in order.
    pub fn rules(&self) -> (r: &[GeoRule])
        ensures
            r@ == self.rule_list(),
    {
        self.rules.as_slice()
    }

    /// Decides for a client address, saying why when no target is chosen.
    pub fn decide(&self, client_ip: ClientIp) -> (r: Decision)
        ensures
            decided(r, self.rule_list(), self.dataset(), client_ip.octets()),
    {
        match &self.db {
            None => Decision::NoGeoCapability,
            Some(db) => {
                let country = db.country(client_ip);
                match country {
                    None => Decision::UnclassifiedAddress,
                    Some(c) => decide_for_country(self.rules.as_slice(), Some(c.as_str())),
                }
            },
        }
    }

    /// The target for a client address, or `None` where no rule decides.
    pub fn evaluate(&self, client_ip: ClientIp) -> (r: Option<String>)
        ensures
            opt_view(r) == geo_target(self.rule_list(), self.dataset(), client_ip.octets()),
    {
        let d = self.decide(client_ip);
        proof {
            lemma_decided_target(d, self.rule_list(), self.dataset(), client_ip.octets());
        }
        d.into_target()
    }
}

/// A decision carries exactly the target that `geo_target` gives.
pub proof fn lemma_decided_target(
    d: Decision,
    rules: Seq<GeoRule>,
    dataset: Option<Seq<u8>>,
    address: Seq<u8>,
)
    requires
        decided(d, rules, dataset, address),
    ensures
        d.target_view() == geo_target(rules, dataset, address),
{
}


/// Without a dataset no rule can match: no target, whatever the rules.
pub proof fn lemma_no_dataset_no_target(rules: Seq<GeoRule>, address: Seq<u8>)
    ensures
        geo_target(rules, None, address) is None,
{
}

/// An address that the dataset does not place gets no target, whatever the
/// rules.
pub proof fn lemma_unclassified_no_target(rules: Seq<GeoRule>, dataset: Seq<u8>, address: Seq<u8>)
    requires
        country_in(dataset, address) is None,
    ensures
        geo_target(rules, Some(dataset), address) is None,
{
}

/// An empty rule list never gives a target.
pub proof fn lemma_no_rules_no_target(dataset: Option<Seq<u8>>, address: Seq<u8>)
    ensures
        geo_target(Seq::<GeoRule>::empty(), dataset, address) is None,
{
    if let Some(data) = dataset {
        if let Some(c) = country_in(data, address) {
            lemma_no_match(Seq::<GeoRule>::empty(), c);
        }
    }
}

} // verus!
