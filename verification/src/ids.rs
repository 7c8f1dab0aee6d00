//! Identifier types: components (`Name`), domains, accounts, asset
//! definitions and asset instances, each with its canonical string form and
//! a total order fit for map keys.
use vstd::prelude::*;

use crate::errors::ParseError;
use crate::grammar::{
    check_component, component_error, find_first, find_sep, lemma_find_first,
    lemma_find_first_is_first, lemma_parse_pair_inverts_format, lemma_parse_pair_reconstructs,
    parse_pair, spec_format_pair, spec_parse_pair, valid_name,
};
use crate::order::{
    cmp_chars, lemma_cmp_chars_equal, lemma_cmp_chars_flip, lemma_cmp_chars_transitive, str_cmp,
    str_eq, Comparison,
};

verus! {

/// A single identifier component: non-empty text free of the reserved
/// separator characters. Values exist only through validating constructors,
/// so every `Name` satisfies the component grammar.
#[derive(Debug, Hash)]
pub struct Name {
    text: String,
}

impl View for Name {
    type V = Seq<char>;

    closed spec fn view(&self) -> Seq<char> {
        self.text@
    }
}

impl Name {
    #[verifier::type_invariant]
    spec fn wf(self) -> bool {
        valid_name(self@)
    }

    /// Parse a raw string as an identifier component.
    pub fn new(s: &str) -> (r: Result<Name, ParseError>)
        ensures
            valid_name(s@) ==> (r matches Ok(n) && n@ == s@),
            !valid_name(s@) ==> r == Err::<Name, ParseError>(component_error(s@)),
    {
        match check_component(s) {
            Ok(()) => Ok(Name { text: String::from_str(s) }),
            Err(e) => Err(e),
        }
    }

    /// Wrap text that has already been held to the component grammar.
    pub(crate) fn from_validated(text: String) -> (r: Name)
        requires
            valid_name(text@),
        ensures
            r@ == text@,
    {
        Name { text }
    }

    /// The component as text; every component that exists satisfies the
    /// grammar.
    pub fn as_str(&self) -> (r: &str)
        ensures
            r@ == self@,
            valid_name(self@),
    {
        proof {
            use_type_invariant(self);
        }
        self.text.as_str()
    }
}

impl Clone for Name {
    /// A clone carries the same text, so also the component grammar.
    fn clone(&self) -> (r: Name)
        ensures
            r@ == self@,
    {
        proof {
            use_type_invariant(self);
        }
        Name { text: self.text.clone() }
    }
}

impl PartialEq for Name {
    fn eq(&self, other: &Name) -> bool {
        str_eq(self.text.as_str(), other.text.as_str())
    }
}

impl vstd::std_specs::cmp::PartialEqSpecImpl for Name {
    open spec fn obeys_eq_spec() -> bool {
        true
    }

    open spec fn eq_spec(&self, other: &Name) -> bool {
        self@ == other@
    }
}

/// Identifier of a domain: the namespace an asset name or account lives in.
#[derive(Clone, Debug, Hash)]
pub struct DomainId {
    pub name: Name,
}

impl View for DomainId {
    type V = Seq<char>;

    open spec fn view(&self) -> Seq<char> {
        self.name@
    }
}

impl DomainId {
    /// Parse a raw string as a domain identifier.
    pub fn new(s: &str) -> (r: Result<DomainId, ParseError>)
        ensures
            valid_name(s@) ==> (r matches Ok(d) && d@ == s@),
            !valid_name(s@) ==> r == Err::<DomainId, ParseError>(component_error(s@)),
    {
        match Name::new(s) {
            Ok(name) => Ok(DomainId { name }),
            Err(e) => Err(e),
        }
    }

    /// The domain identifier as text; it always satisfies the component
    /// grammar.
    pub fn as_str(&self) -> (r: &str)
        ensures
            r@ == self@,
            valid_name(self@),
    {
        self.name.as_str()
    }
}

impl PartialEq for DomainId {
    fn eq(&self, other: &DomainId) -> bool {
        self.name == other.name
    }
}

impl vstd::std_specs::cmp::PartialEqSpecImpl for DomainId {
    open spec fn obeys_eq_spec() -> bool {
        true
    }

    open spec fn eq_spec(&self, other: &DomainId) -> bool {
        self@ == other@
    }
}

/// Mathematical shape of an account identifier.
pub ghost struct AccountIdView {
    pub signatory: Seq<char>,
    pub domain: Seq<char>,
}

/// Identifier of an account: a signatory component and the domain the
/// account is registered in, written canonically as `signatory@domain`.
#[derive(Clone, Debug, Hash)]
pub struct AccountId {
    pub signatory: Name,
    pub domain: DomainId,
}

impl View for AccountId {
    type V = AccountIdView;

    open spec fn view(&self) -> AccountIdView {
        AccountIdView { signatory: self.signatory@, domain: self.domain@ }
    }
}

/// Parse of a canonical account string, split at the first `@`.
pub open spec fn spec_parse_account_id(s: Seq<char>) -> Result<AccountIdView, ParseError> {
    match spec_parse_pair(s, '@') {
        Ok(p) => Ok(AccountIdView { signatory: p.0, domain: p.1 }),
        Err(e) => Err(e),
    }
}

/// Canonical string of an account identifier.
pub open spec fn spec_format_account_id(v: AccountIdView) -> Seq<char> {
    spec_format_pair(v.signatory, '@', v.domain)
}

impl AccountId {
    /// Build an account identifier from raw component strings; the
    /// signatory is validated before the domain.
    pub fn new(signatory: &str, domain: &str) -> (r: Result<AccountId, ParseError>)
        ensures
            !valid_name(signatory@) ==> r == Err::<AccountId, ParseError>(
                component_error(signatory@),
            ),
            valid_name(signatory@) && !valid_name(domain@) ==> r == Err::<AccountId, ParseError>(
                component_error(domain@),
            ),
            valid_name(signatory@) && valid_name(domain@) ==> (r matches Ok(a) && a@
                == (AccountIdView { signatory: signatory@, domain: domain@ })),
    {
        let signatory = match Name::new(signatory) {
            Ok(n) => n,
            Err(e) => {
                return Err(e);
            },
        };
        let domain = match DomainId::new(domain) {
            Ok(d) => d,
            Err(e) => {
                return Err(e);
            },
        };
        Ok(AccountId { signatory, domain })
    }

    /// Assemble an account identifier from already-validated parts.
    pub fn from_parts(signatory: Name, domain: DomainId) -> (r: AccountId)
        ensures
            r@ == (AccountIdView { signatory: signatory@, domain: domain@ }),
    {
        AccountId { signatory, domain }
    }

    /// Parse a canonical `signatory@domain` string.
    pub fn parse(s: &str) -> (r: Result<AccountId, ParseError>)
        ensures
            match spec_parse_account_id(s@) {
                Ok(v) => r matches Ok(a) && a@ == v,
                Err(e) => r == Err::<AccountId, ParseError>(e),
            },
    {
        match parse_pair(s, '@') {
            Ok((signatory, domain)) => Ok(AccountId {
                signatory: Name::from_validated(signatory),
                domain: DomainId { name: Name::from_validated(domain) },
            }),
            Err(e) => Err(e),
        }
    }

    /// The canonical `signatory@domain` string; both components always
    /// satisfy the grammar.
    pub fn canonical_string(&self) -> (r: String)
        ensures
            r@ == spec_format_account_id(self@),
            valid_name(self@.signatory),
            valid_name(self@.domain),
    {
        let mut out = String::from_str(self.signatory.as_str());
        out.append("@");
        out.append(self.domain.as_str());
        proof {
            reveal_strlit("@");
            assert(out@ =~= spec_format_account_id(self@));
        }
        out
    }
}

impl PartialEq for AccountId {
    fn eq(&self, other: &AccountId) -> bool {
        self.signatory == other.signatory && self.domain == other.domain
    }
}

impl vstd::std_specs::cmp::PartialEqSpecImpl for AccountId {
    open spec fn obeys_eq_spec() -> bool {
        true
    }

    open spec fn eq_spec(&self, other: &AccountId) -> bool {
        self@ == other@
    }
}

/// Mathematical shape of an asset-definition identifier.
pub ghost struct AssetDefinitionIdView {
    pub name: Seq<char>,
    pub domain: Seq<char>,
}

/// Identifier of an asset definition: an asset name and the domain it is
/// registered in, written canonically as `name#domain`.
#[derive(Clone, Debug, Hash)]
pub struct AssetDefinitionId {
    pub name: Name,
    pub domain: DomainId,
}

impl View for AssetDefinitionId {
    type V = AssetDefinitionIdView;

    open spec fn view(&self) -> AssetDefinitionIdView {
        AssetDefinitionIdView { name: self.name@, domain: self.domain@ }
    }
}

/// Parse of a canonical definition-identifier string, split at the first
/// `#`.
pub open spec fn spec_parse_definition_id(s: Seq<char>) -> Result<
    AssetDefinitionIdView,
    ParseError,
> {
    match spec_parse_pair(s, '#') {
        Ok(p) => Ok(AssetDefinitionIdView { name: p.0, domain: p.1 }),
        Err(e) => Err(e),
    }
}

/// Canonical string of a definition identifier.
pub open spec fn spec_format_definition_id(v: AssetDefinitionIdView) -> Seq<char> {
    spec_format_pair(v.name, '#', v.domain)
}

/// Total order on definition identifiers: by name, then by domain.
pub open spec fn cmp_definition_ids(x: AssetDefinitionIdView, y: AssetDefinitionIdView)
    -> Comparison {
    if cmp_chars(x.name, y.name) != Comparison::Equal {
        cmp_chars(x.name, y.name)
    } else {
        cmp_chars(x.domain, y.domain)
    }
}

impl AssetDefinitionId {
    /// Build a definition identifier from raw component strings; the name
    /// is validated before the domain.
    pub fn new(name: &str, domain: &str) -> (r: Result<AssetDefinitionId, ParseError>)
        ensures
            !valid_name(name@) ==> r == Err::<AssetDefinitionId, ParseError>(
                component_error(name@),
            ),
            valid_name(name@) && !valid_name(domain@) ==> r == Err::<
                AssetDefinitionId,
                ParseError,
            >(component_error(domain@)),
            valid_name(name@) && valid_name(domain@) ==> (r matches Ok(id) && id@
                == (AssetDefinitionIdView { name: name@, domain: domain@ })),
    {
        let name = match Name::new(name) {
            Ok(n) => n,
            Err(e) => {
                return Err(e);
            },
        };
        let domain = match DomainId::new(domain) {
            Ok(d) => d,
            Err(e) => {
                return Err(e);
            },
        };
        Ok(AssetDefinitionId { name, domain })
    }

    /// Assemble a definition identifier from already-validated parts.
    pub fn from_parts(name: Name, domain: DomainId) -> (r: AssetDefinitionId)
        ensures
            r@ == (AssetDefinitionIdView { name: name@, domain: domain@ }),
    {
        AssetDefinitionId { name, domain }
    }

    /// Parse a canonical `name#domain` string.
    pub fn parse(s: &str) -> (r: Result<AssetDefinitionId, ParseError>)
        ensures
            match spec_parse_definition_id(s@) {
                Ok(v) => r matches Ok(id) && id@ == v,
                Err(e) => r == Err::<AssetDefinitionId, ParseError>(e),
            },
    {
        match parse_pair(s, '#') {
            Ok((name, domain)) => Ok(AssetDefinitionId {
                name: Name::from_validated(name),
                domain: DomainId { name: Name::from_validated(domain) },
            }),
            Err(e) => Err(e),
        }
    }

    /// The canonical `name#domain` string; both components always satisfy
    /// the grammar.
    pub fn canonical_string(&self) -> (r: String)
        ensures
            r@ == spec_format_definition_id(self@),
            valid_name(self@.name),
            valid_name(self@.domain),
    {
        let mut out = String::from_str(self.name.as_str());
        out.append("#");
        out.append(self.domain.as_str());
        proof {
            reveal_strlit("#");
            assert(out@ =~= spec_format_definition_id(self@));
        }
        out
    }

    /// Replace only the name, re-validating it alone; a rejected input
    /// leaves the identifier exactly as it was.
    pub fn set_name(&mut self, s: &str) -> (r: Result<(), ParseError>)
        ensures
            valid_name(s@) ==> r is Ok && final(self)@ == (AssetDefinitionIdView {
                name: s@,
                domain: old(self)@.domain,
            }),
            !valid_name(s@) ==> r == Err::<(), ParseError>(component_error(s@)) && *final(self)
                == *old(self),
    {
        match Name::new(s) {
            Ok(n) => {
                self.name = n;
                Ok(())
            },
            Err(e) => Err(e),
        }
    }

    /// Replace only the domain, re-validating it alone; a rejected input
    /// leaves the identifier exactly as it was.
    pub fn set_domain(&mut self, s: &str) -> (r: Result<(), ParseError>)
        ensures
            valid_name(s@) ==> r is Ok && final(self)@ == (AssetDefinitionIdView {
                name: old(self)@.name,
                domain: s@,
            }),
            !valid_name(s@) ==> r == Err::<(), ParseError>(component_error(s@)) && *final(self)
                == *old(self),
    {
        match DomainId::new(s) {
            Ok(d) => {
                self.domain = d;
                Ok(())
            },
            Err(e) => Err(e),
        }
    }

    /// Compare two definition identifiers in the total order.
    pub fn cmp_with(&self, other: &AssetDefinitionId) -> (r: Comparison)
        ensures
            r == cmp_definition_ids(self@, other@),
    {
        match str_cmp(self.name.as_str(), other.name.as_str()) {
            Comparison::Equal => str_cmp(self.domain.as_str(), other.domain.as_str()),
            c => c,
        }
    }

}

impl PartialEq for AssetDefinitionId {
    fn eq(&self, other: &AssetDefinitionId) -> bool {
        self.name == other.name && self.domain == other.domain
    }
}

impl vstd::std_specs::cmp::PartialEqSpecImpl for AssetDefinitionId {
    open spec fn obeys_eq_spec() -> bool {
        true
    }

    open spec fn eq_spec(&self, other: &AssetDefinitionId) -> bool {
        self@ == other@
    }
}

/// Law: a string that parses is exactly the canonical form of its parse, so
/// parsing, formatting and re-parsing gives the first parse back.
pub proof fn lemma_definition_id_round_trip(s: Seq<char>)
    ensures
        spec_parse_definition_id(s) matches Ok(v) ==> {
            &&& spec_format_definition_id(v) == s
            &&& spec_parse_definition_id(spec_format_definition_id(v))
                == spec_parse_definition_id(s)
        },
{
    lemma_parse_pair_reconstructs(s, '#');
}

/// Law: every well-formed definition identifier is recovered from its
/// canonical string.
pub proof fn lemma_definition_id_parse_inverts_format(v: AssetDefinitionIdView)
    requires
        valid_name(v.name),
        valid_name(v.domain),
    ensures
        spec_parse_definition_id(spec_format_definition_id(v)) == Ok::<_, ParseError>(v),
{
    lemma_parse_pair_inverts_format(v.name, '#', v.domain);
}

/// Law: the account round trip, stated as for definition identifiers.
pub proof fn lemma_account_id_round_trip(s: Seq<char>)
    ensures
        spec_parse_account_id(s) matches Ok(v) ==> {
            &&& spec_format_account_id(v) == s
            &&& spec_parse_account_id(spec_format_account_id(v)) == spec_parse_account_id(s)
        },
{
    lemma_parse_pair_reconstructs(s, '@');
}

/// Law: the definition-identifier order reports `Equal` exactly on equal
/// identifiers, and `Less` one way exactly when `Greater` the other way, so
/// for any two identifiers exactly one of the three outcomes holds.
pub proof fn lemma_definition_id_order_trichotomy(
    x: AssetDefinitionIdView,
    y: AssetDefinitionIdView,
)
    ensures
        (cmp_definition_ids(x, y) == Comparison::Equal) <==> x == y,
        (cmp_definition_ids(x, y) == Comparison::Less) <==> (cmp_definition_ids(y, x)
            == Comparison::Greater),
{
    lemma_cmp_chars_equal(x.name, y.name);
    lemma_cmp_chars_equal(y.name, x.name);
    lemma_cmp_chars_equal(x.domain, y.domain);
    lemma_cmp_chars_equal(y.domain, x.domain);
    lemma_cmp_chars_flip(x.name, y.name);
    lemma_cmp_chars_flip(y.name, x.name);
    lemma_cmp_chars_flip(x.domain, y.domain);
    lemma_cmp_chars_flip(y.domain, x.domain);
}

/// Law: the definition-identifier order is transitive in its strict part.
pub proof fn lemma_definition_id_order_transitive(
    x: AssetDefinitionIdView,
    y: AssetDefinitionIdView,
    z: AssetDefinitionIdView,
)
    requires
        cmp_definition_ids(x, y) == Comparison::Less,
        cmp_definition_ids(y, z) == Comparison::Less,
    ensures
        cmp_definition_ids(x, z) == Comparison::Less,
{
    lemma_cmp_chars_equal(x.name, y.name);
    lemma_cmp_chars_equal(y.name, z.name);
    lemma_cmp_chars_equal(x.name, z.name);
    if cmp_chars(x.name, y.name) == Comparison::Less && cmp_chars(y.name, z.name)
        == Comparison::Less {
        lemma_cmp_chars_transitive(x.name, y.name, z.name);
    } else if cmp_chars(x.name, y.name) == Comparison::Equal && cmp_chars(y.name, z.name)
        == Comparison::Equal {
        lemma_cmp_chars_transitive(x.domain, y.domain, z.domain);
    }
}

/// Mathematical shape of an asset (balance) identifier.
pub ghost struct AssetIdView {
    pub definition: AssetDefinitionIdView,
    pub account: AccountIdView,
}

/// Identifier of one concrete balance: which asset definition, held by
/// which account. Written canonically as `name#domain#signatory@domain`.
#[derive(Clone, Debug, Hash)]
pub struct AssetId {
    pub definition: AssetDefinitionId,
    pub account: AccountId,
}

impl View for AssetId {
    type V = AssetIdView;

    open spec fn view(&self) -> AssetIdView {
        AssetIdView { definition: self.definition@, account: self.account@ }
    }
}

/// Canonical string of an asset identifier.
pub open spec fn spec_format_asset_id(v: AssetIdView) -> Seq<char> {
    spec_format_definition_id(v.definition) + seq!['#'] + spec_format_account_id(v.account)
}

/// Total order on account identifiers: by signatory, then by domain.
pub open spec fn cmp_account_ids(x: AccountIdView, y: AccountIdView) -> Comparison {
    if cmp_chars(x.signatory, y.signatory) != Comparison::Equal {
        cmp_chars(x.signatory, y.signatory)
    } else {
        cmp_chars(x.domain, y.domain)
    }
}

/// Total order on asset identifiers: by definition, then by account.
pub open spec fn cmp_asset_ids(x: AssetIdView, y: AssetIdView) -> Comparison {
    if cmp_definition_ids(x.definition, y.definition) != Comparison::Equal {
        cmp_definition_ids(x.definition, y.definition)
    } else {
        cmp_account_ids(x.account, y.account)
    }
}

/// Parse of a canonical asset-identifier string: the asset name up to the
/// first `#`, the asset's domain up to the next `#`, and an account
/// identifier after it.
pub open spec fn spec_parse_asset_id(s: Seq<char>) -> Result<AssetIdView, ParseError> {
    match find_first(s, '#') {
        None => Err(ParseError::MissingSeparator),
        Some(i) => {
            let name = s.subrange(0, i);
            if !valid_name(name) {
                Err(component_error(name))
            } else {
                let rest = s.subrange(i + 1, s.len() as int);
                match find_first(rest, '#') {
                    None => Err(ParseError::MissingSeparator),
                    Some(j) => {
                        let domain = rest.subrange(0, j);
                        if !valid_name(domain) {
                            Err(component_error(domain))
                        } else {
                            let account = rest.subrange(j + 1, rest.len() as int);
                            match spec_parse_account_id(account) {
                                Ok(a) => Ok(
                                    AssetIdView {
                                        definition: AssetDefinitionIdView { name, domain },
                                        account: a,
                                    },
                                ),
                                Err(e) => Err(e),
                            }
                        }
                    },
                }
            }
        },
    }
}

impl AssetId {
    /// Pair a definition identifier with the account holding the balance.
    pub fn new(definition: AssetDefinitionId, account: AccountId) -> (r: AssetId)
        ensures
            r@ == (AssetIdView { definition: definition@, account: account@ }),
    {
        AssetId { definition, account }
    }

    /// Parse a canonical `name#domain#signatory@domain` string.
    pub fn parse(s: &str) -> (r: Result<AssetId, ParseError>)
        ensures
            match spec_parse_asset_id(s@) {
                Ok(v) => r matches Ok(a) && a@ == v,
                Err(e) => r == Err::<AssetId, ParseError>(e),
            },
    {
        let len: usize = s.unicode_len();
        let i = match find_sep(s, '#') {
            Some(i) => i,
            None => {
                return Err(ParseError::MissingSeparator);
            },
        };
        proof {
            lemma_find_first(s@, '#');
        }
        let name = s.substring_char(0, i);
        match check_component(name) {
            Ok(()) => (),
            Err(e) => {
                return Err(e);
            },
        }
        let rest = s.substring_char(i + 1, len);
        let rest_len: usize = rest.unicode_len();
        let j = match find_sep(rest, '#') {
            Some(j) => j,
            None => {
                return Err(ParseError::MissingSeparator);
            },
        };
        proof {
            lemma_find_first(rest@, '#');
        }
        let domain = rest.substring_char(0, j);
        match check_component(domain) {
            Ok(()) => (),
            Err(e) => {
                return Err(e);
            },
        }
        let account = rest.substring_char(j + 1, rest_len);
        match AccountId::parse(account) {
            Ok(a) => Ok(
                AssetId {
                    definition: AssetDefinitionId {
                        name: Name::from_validated(String::from_str(name)),
                        domain: DomainId { name: Name::from_validated(String::from_str(domain)) },
                    },
                    account: a,
                },
            ),
            Err(e) => Err(e),
        }
    }

    /// The canonical `name#domain#signatory@domain` string.
    pub fn canonical_string(&self) -> (r: String)
        ensures
            r@ == spec_format_asset_id(self@),
    {
        let mut out = self.definition.canonical_string();
        out.append("#");
        let account = self.account.canonical_string();
        out.append(account.as_str());
        proof {
            reveal_strlit("#");
            assert(out@ =~= spec_format_asset_id(self@));
        }
        out
    }

    /// Compare two asset identifiers in the total order.
    pub fn cmp_with(&self, other: &AssetId) -> (r: Comparison)
        ensures
            r == cmp_asset_ids(self@, other@),
    {
        match self.definition.cmp_with(&other.definition) {
            Comparison::Equal => match str_cmp(
                self.account.signatory.as_str(),
                other.account.signatory.as_str(),
            ) {
                Comparison::Equal => str_cmp(
                    self.account.domain.as_str(),
                    other.account.domain.as_str(),
                ),
                c => c,
            },
            c => c,
        }
    }
}

/// Law: the account-identifier order reports `Equal` exactly on equal
/// identifiers, and `Less` one way exactly when `Greater` the other.
pub proof fn lemma_account_id_order_trichotomy(x: AccountIdView, y: AccountIdView)
    ensures
        (cmp_account_ids(x, y) == Comparison::Equal) <==> x == y,
        (cmp_account_ids(x, y) == Comparison::Less) <==> (cmp_account_ids(y, x)
            == Comparison::Greater),
{
    lemma_cmp_chars_equal(x.signatory, y.signatory);
    lemma_cmp_chars_equal(y.signatory, x.signatory);
    lemma_cmp_chars_equal(x.domain, y.domain);
    lemma_cmp_chars_equal(y.domain, x.domain);
    lemma_cmp_chars_flip(x.signatory, y.signatory);
    lemma_cmp_chars_flip(y.signatory, x.signatory);
    lemma_cmp_chars_flip(x.domain, y.domain);
    lemma_cmp_chars_flip(y.domain, x.domain);
}

/// Law: the account-identifier order is transitive in its strict part.
pub proof fn lemma_account_id_order_transitive(
    x: AccountIdView,
    y: AccountIdView,
    z: AccountIdView,
)
    requires
        cmp_account_ids(x, y) == Comparison::Less,
        cmp_account_ids(y, z) == Comparison::Less,
    ensures
        cmp_account_ids(x, z) == Comparison::Less,
{
    lemma_cmp_chars_equal(x.signatory, y.signatory);
    lemma_cmp_chars_equal(y.signatory, z.signatory);
    lemma_cmp_chars_equal(x.signatory, z.signatory);
    if cmp_chars(x.signatory, y.signatory) == Comparison::Less && cmp_chars(y.signatory, z.signatory)
        == Comparison::Less {
        lemma_cmp_chars_transitive(x.signatory, y.signatory, z.signatory);
    } else if cmp_chars(x.signatory, y.signatory) == Comparison::Equal && cmp_chars(
        y.signatory,
        z.signatory,
    ) == Comparison::Equal {
        lemma_cmp_chars_transitive(x.domain, y.domain, z.domain);
    }
}

/// Law: the asset-identifier order reports `Equal` exactly on equal
/// identifiers, and `Less` one way exactly when `Greater` the other.
pub proof fn lemma_asset_id_order_trichotomy(x: AssetIdView, y: AssetIdView)
    ensures
        (cmp_asset_ids(x, y) == Comparison::Equal) <==> x == y,
        (cmp_asset_ids(x, y) == Comparison::Less) <==> (cmp_asset_ids(y, x)
            == Comparison::Greater),
{
    lemma_definition_id_order_trichotomy(x.definition, y.definition);
    lemma_definition_id_order_trichotomy(y.definition, x.definition);
    lemma_account_id_order_trichotomy(x.account, y.account);
    lemma_account_id_order_trichotomy(y.account, x.account);
}

/// Law: the asset-identifier order is transitive in its strict part.
pub proof fn lemma_asset_id_order_transitive(x: AssetIdView, y: AssetIdView, z: AssetIdView)
    requires
        cmp_asset_ids(x, y) == Comparison::Less,
        cmp_asset_ids(y, z) == Comparison::Less,
    ensures
        cmp_asset_ids(x, z) == Comparison::Less,
{
    lemma_definition_id_order_trichotomy(x.definition, y.definition);
    lemma_definition_id_order_trichotomy(y.definition, z.definition);
    lemma_definition_id_order_trichotomy(x.definition, z.definition);
    if cmp_definition_ids(x.definition, y.definition) == Comparison::Less && cmp_definition_ids(
        y.definition,
        z.definition,
    ) == Comparison::Less {
        lemma_definition_id_order_transitive(x.definition, y.definition, z.definition);
    } else if cmp_definition_ids(x.definition, y.definition) == Comparison::Equal
        && cmp_definition_ids(y.definition, z.definition) == Comparison::Equal {
        lemma_account_id_order_transitive(x.account, y.account, z.account);
    }
}

/// Law: an asset-identifier string that parses is exactly the canonical
/// form of its parse, so parsing, formatting and re-parsing gives the first
/// parse back.
pub proof fn lemma_asset_id_round_trip(s: Seq<char>)
    ensures
        spec_parse_asset_id(s) matches Ok(v) ==> {
            &&& spec_format_asset_id(v) == s
            &&& spec_parse_asset_id(spec_format_asset_id(v)) == spec_parse_asset_id(s)
        },
{
    if spec_parse_asset_id(s) is Ok {
        lemma_find_first(s, '#');
        let i = find_first(s, '#')->Some_0;
        let rest = s.subrange(i + 1, s.len() as int);
        lemma_find_first(rest, '#');
        let j = find_first(rest, '#')->Some_0;
        let account = rest.subrange(j + 1, rest.len() as int);
        lemma_parse_pair_reconstructs(account, '@');
        let v = spec_parse_asset_id(s)->Ok_0;
        assert(spec_format_asset_id(v) =~= s);
    }
}

/// Law: every well-formed asset identifier is recovered from its canonical
/// string.
pub proof fn lemma_asset_id_parse_inverts_format(v: AssetIdView)
    requires
        valid_name(v.definition.name),
        valid_name(v.definition.domain),
        valid_name(v.account.signatory),
        valid_name(v.account.domain),
    ensures
        spec_parse_asset_id(spec_format_asset_id(v)) == Ok::<_, ParseError>(v),
{
    let s = spec_format_asset_id(v);
    let n = v.definition.name;
    let d = v.definition.domain;
    let acct = spec_format_account_id(v.account);
    assert(s.len() == n.len() + 1 + d.len() + 1 + acct.len());
    assert(s[n.len() as int] == '#');
    assert forall|k: int| 0 <= k < n.len() implies s[k] != '#' by {
        assert(s[k] == n[k]);
    }
    lemma_find_first_is_first(s, '#', n.len() as int);
    let rest = s.subrange(n.len() as int + 1, s.len() as int);
    assert(rest =~= d + seq!['#'] + acct);
    assert(rest[d.len() as int] == '#');
    assert forall|k: int| 0 <= k < d.len() implies rest[k] != '#' by {
        assert(rest[k] == d[k]);
    }
    lemma_find_first_is_first(rest, '#', d.len() as int);
    assert(s.subrange(0, n.len() as int) =~= n);
    assert(rest.subrange(0, d.len() as int) =~= d);
    assert(rest.subrange(d.len() as int + 1, rest.len() as int) =~= acct);
    lemma_parse_pair_inverts_format(v.account.signatory, '@', v.account.domain);
    assert(spec_parse_asset_id(s)->Ok_0 == v);
}

impl PartialEq for AssetId {
    fn eq(&self, other: &AssetId) -> bool {
        self.definition == other.definition && self.account == other.account
    }
}

impl vstd::std_specs::cmp::PartialEqSpecImpl for AssetId {
    open spec fn obeys_eq_spec() -> bool {
        true
    }

    open spec fn eq_spec(&self, other: &AssetId) -> bool {
        self@ == other@
    }
}

} // verus!
