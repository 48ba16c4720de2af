//! The credential store: at most one bearer token, at most one OAuth1
//! credential set, and one OAuth2 entry per username.
//!
//! The store lives in memory; writing it to its file after each change is the
//! caller's part.

use vstd::prelude::*;

verus! {

/// An OAuth 1.0a credential set.
#[derive(Debug, Clone)]
pub struct OAuth1Token {
    pub access_token: String,
    pub token_secret: String,
    pub consumer_key: String,
    pub consumer_secret: String,
}

/// An OAuth 2.0 entry: the access token, the refresh token and the Unix second
/// at which the access token expires.
#[derive(Debug, Clone)]
pub struct OAuth2Token {
    pub access_token: String,
    pub refresh_token: String,
    pub expiration_time: u64,
}

/// One stored credential.
#[derive(Debug, Clone)]
pub enum Token {
    Bearer(String),
    OAuth2(OAuth2Token),
    OAuth1(OAuth1Token),
}

/// Mathematical value of an [`OAuth1Token`].
pub struct OAuth1Model {
    pub access_token: Seq<char>,
    pub token_secret: Seq<char>,
    pub consumer_key: Seq<char>,
    pub consumer_secret: Seq<char>,
}

/// Mathematical value of an [`OAuth2Token`].
pub struct OAuth2Model {
    pub access_token: Seq<char>,
    pub refresh_token: Seq<char>,
    pub expiration_time: u64,
}

/// Mathematical value of a [`Token`].
pub enum TokenModel {
    Bearer(Seq<char>),
    OAuth2(OAuth2Model),
    OAuth1(OAuth1Model),
}

impl View for OAuth1Token {
    type V = OAuth1Model;

    open spec fn view(&self) -> OAuth1Model {
        OAuth1Model {
            access_token: self.access_token@,
            token_secret: self.token_secret@,
            consumer_key: self.consumer_key@,
            consumer_secret: self.consumer_secret@,
        }
    }
}

impl View for OAuth2Token {
    type V = OAuth2Model;

    open spec fn view(&self) -> OAuth2Model {
        OAuth2Model {
            access_token: self.access_token@,
            refresh_token: self.refresh_token@,
            expiration_time: self.expiration_time,
        }
    }
}

impl View for Token {
    type V = TokenModel;

    open spec fn view(&self) -> TokenModel {
        match self {
            Token::Bearer(t) => TokenModel::Bearer(t@),
            Token::OAuth2(t) => TokenModel::OAuth2(t@),
            Token::OAuth1(t) => TokenModel::OAuth1(t@),
        }
    }
}

impl OAuth1Token {
    /// A copy with the same strings.
    pub fn duplicate(&self) -> (r: OAuth1Token)
        ensures
            r@ == self@,
    {
        OAuth1Token {
            access_token: self.access_token.clone(),
            token_secret: self.token_secret.clone(),
            consumer_key: self.consumer_key.clone(),
            consumer_secret: self.consumer_secret.clone(),
        }
    }
}

impl OAuth2Token {
    /// A copy with the same strings and expiration time.
    pub fn duplicate(&self) -> (r: OAuth2Token)
        ensures
            r@ == self@,
    {
        OAuth2Token {
            access_token: self.access_token.clone(),
            refresh_token: self.refresh_token.clone(),
            expiration_time: self.expiration_time,
        }
    }
}


/// What can go wrong while the store is read, written or filled.
#[derive(Debug, Clone, Copy, PartialEq, Eq, Structural)]
pub enum TokenStoreError {
    JSONSerializationError,
    JSONDeserializationError,
    IOError,
    RefreshTokenNotFound,
}

/// Mathematical value of a [`TokenStore`]: the OAuth2 entries by username,
/// and the two single slots.
pub struct StoreModel {
    pub oauth2: Map<Seq<char>, OAuth2Model>,
    pub oauth1: Option<OAuth1Model>,
    pub bearer: Option<Seq<char>>,
}

impl StoreModel {
    /// The store that holds nothing.
    pub open spec fn empty() -> StoreModel {
        StoreModel { oauth2: Map::empty(), oauth1: None, bearer: None }
    }

    pub open spec fn put_bearer(self, token: Seq<char>) -> StoreModel {
        StoreModel { bearer: Some(token), ..self }
    }

    pub open spec fn put_oauth1(self, set: OAuth1Model) -> StoreModel {
        StoreModel { oauth1: Some(set), ..self }
    }

    pub open spec fn put_oauth2(self, username: Seq<char>, entry: OAuth2Model) -> StoreModel {
        StoreModel { oauth2: self.oauth2.insert(username, entry), ..self }
    }

    pub open spec fn remove_oauth2(self, username: Seq<char>) -> StoreModel {
        StoreModel { oauth2: self.oauth2.remove(username), ..self }
    }

    pub open spec fn remove_oauth1(self) -> StoreModel {
        StoreModel { oauth1: None, ..self }
    }

    pub open spec fn remove_bearer(self) -> StoreModel {
        StoreModel { bearer: None, ..self }
    }

    /// The credential stored for `username` under OAuth2, if any.
    pub open spec fn get_oauth2(self, username: Seq<char>) -> Option<TokenModel> {
        if self.oauth2.contains_key(username) {
            Some(TokenModel::OAuth2(self.oauth2[username]))
        } else {
            None
        }
    }

    pub open spec fn get_oauth1(self) -> Option<TokenModel> {
        match self.oauth1 {
            Some(set) => Some(TokenModel::OAuth1(set)),
            None => None,
        }
    }

    pub open spec fn get_bearer(self) -> Option<TokenModel> {
        match self.bearer {
            Some(t) => Some(TokenModel::Bearer(t)),
            None => None,
        }
    }
}

/// The view of an optional token.
pub open spec fn opt_token_view(t: Option<Token>) -> Option<TokenModel> {
    match t {
        Some(t) => Some(t@),
        None => None,
    }
}

/// No two entries share a username.
pub open spec fn keys_unique(s: Seq<(String, OAuth2Token)>) -> bool {
    forall|i: int, j: int|
        0 <= i < s.len() && 0 <= j < s.len() && (#[trigger] s[i].0@) == (#[trigger] s[j].0@)
            ==> i == j
}

/// Some entry of `s` has the username `k`.
pub open spec fn has_key(s: Seq<(String, OAuth2Token)>, k: Seq<char>) -> bool {
    exists|i: int| 0 <= i < s.len() && (#[trigger] s[i].0@) == k
}

/// The map from username to entry that a list of entries stands for.
pub open spec fn entries_map(s: Seq<(String, OAuth2Token)>) -> Map<Seq<char>, OAuth2Model> {
    Map::new(
        |k: Seq<char>| has_key(s, k),
        |k: Seq<char>| s[choose|i: int| 0 <= i < s.len() && (#[trigger] s[i].0@) == k].1@,
    )
}

proof fn lemma_entries_map_at(s: Seq<(String, OAuth2Token)>, i: int)
    requires
        keys_unique(s),
        0 <= i < s.len(),
    ensures
        entries_map(s).contains_key(s[i].0@),
        entries_map(s)[s[i].0@] == s[i].1@,
{
    let k = s[i].0@;
    assert(has_key(s, k));
    let j = choose|j: int| 0 <= j < s.len() && (#[trigger] s[j].0@) == k;
    assert(s[j].0@ == s[i].0@);
}

/// Every entry of `s` is found in `entries_map(s)` under its username.
proof fn lemma_entries_map_all(s: Seq<(String, OAuth2Token)>)
    requires
        keys_unique(s),
    ensures
        forall|i: int|
            0 <= i < s.len() ==> entries_map(s).contains_key(#[trigger] s[i].0@)
                && entries_map(s)[s[i].0@] == s[i].1@,
{
    assert forall|i: int| 0 <= i < s.len() implies entries_map(s).contains_key(#[trigger] s[i].0@)
        && entries_map(s)[s[i].0@] == s[i].1@ by {
        lemma_entries_map_at(s, i);
    }
}

/// The map of a list of entries with distinct usernames has one key per entry.
proof fn lemma_dom_len(s: Seq<(String, OAuth2Token)>)
    requires
        keys_unique(s),
    ensures
        entries_map(s).dom().finite(),
        entries_map(s).dom().len() == s.len(),
    decreases s.len(),
{
    if s.len() == 0 {
        assert(entries_map(s).dom() =~= Set::empty());
    } else {
        let t = s.drop_last();
        assert(keys_unique(t));
        lemma_dom_len(t);
        let last = s[s.len() - 1].0@;
        assert forall|k: Seq<char>| #[trigger] entries_map(s).dom().contains(k) == entries_map(t).dom().insert(last).contains(k) by {
            if has_key(s, k) && k != last {
                let j = choose|j: int| 0 <= j < s.len() && (#[trigger] s[j].0@) == k;
                assert(t[j].0@ == k);
            }
            if has_key(t, k) {
                let j = choose|j: int| 0 <= j < t.len() && (#[trigger] t[j].0@) == k;
                assert(s[j].0@ == k);
            }
            if k == last {
                assert(s[s.len() - 1].0@ == k);
            }
        }
        assert(entries_map(s).dom() =~= entries_map(t).dom().insert(last));
        assert(!entries_map(t).dom().contains(last)) by {
            if has_key(t, last) {
                let j = choose|j: int| 0 <= j < t.len() && (#[trigger] t[j].0@) == last;
                assert(s[j].0@ == s[s.len() - 1].0@);
            }
        }
    }
}

/// All credential material of one user of the client.
pub struct TokenStore {
    oauth2_tokens: Vec<(String, OAuth2Token)>,
    oauth1_tokens: Option<OAuth1Token>,
    bearer_token: Option<String>,
}

impl View for TokenStore {
    type V = StoreModel;

    closed spec fn view(&self) -> StoreModel {
        StoreModel {
            oauth2: entries_map(self.oauth2_tokens@),
            oauth1: match self.oauth1_tokens {
                Some(t) => Some(t@),
                None => None,
            },
            bearer: match self.bearer_token {
                Some(t) => Some(t@),
                None => None,
            },
        }
    }
}

impl TokenStore {
    #[verifier::type_invariant]
    spec fn inv(&self) -> bool {
        keys_unique(self.oauth2_tokens@)
    }

    /// A store that holds nothing.
    pub fn empty() -> (r: TokenStore)
        ensures
            r@ == StoreModel::empty(),
    {
        let r = TokenStore { oauth2_tokens: Vec::new(), oauth1_tokens: None, bearer_token: None };
        assert(r@.oauth2 =~= Map::empty());
        r
    }

    /// Where the entry of `username` stands in the list, if there is one.
    fn find_oauth2(&self, username: &str) -> (r: Option<usize>)
        ensures
            match r {
                Some(i) => i < self.oauth2_tokens@.len() && self.oauth2_tokens@[i as int].0@
                    == username@,
                None => !has_key(self.oauth2_tokens@, username@),
            },
    {
        let key = username.to_owned();
        let mut i: usize = 0;
        while i < self.oauth2_tokens.len()
            invariant
                i <= self.oauth2_tokens@.len(),
                key@ == username@,
                forall|j: int| 0 <= j < i ==> (#[trigger] self.oauth2_tokens@[j].0@) != username@,
            decreases self.oauth2_tokens@.len() - i,
        {
            if self.oauth2_tokens[i].0 == key {
                return Some(i);
            }
            i = i + 1;
        }
        None
    }

    /// Stores `token` as the bearer token, replacing any earlier one.
    pub fn save_bearer_token(&mut self, token: &str)
        ensures
            final(self)@ == old(self)@.put_bearer(token@),
    {
        proof {
            use_type_invariant(&*self);
        }
        self.bearer_token = Some(token.to_owned());
    }

    /// Stores the OAuth2 entry of `username`, replacing any earlier entry of
    /// that username.
    pub fn save_oauth2_token(
        &mut self,
        username: &str,
        token: &str,
        refresh_token: &str,
        expiration_time: u64,
    )
        ensures
            final(self)@ == old(self)@.put_oauth2(
                username@,
                OAuth2Model {
                    access_token: token@,
                    refresh_token: refresh_token@,
                    expiration_time,
                },
            ),
    {
        proof {
            use_type_invariant(&*self);
        }
        let entry = OAuth2Token {
            access_token: token.to_owned(),
            refresh_token: refresh_token.to_owned(),
            expiration_time,
        };
        let idx = self.find_oauth2(username);
        let mut v: Vec<(String, OAuth2Token)> = Vec::new();
        std::mem::swap(&mut v, &mut self.oauth2_tokens);
        let ghost before = v@;
        let ghost new_model = entry@;
        match idx {
            Some(i) => {
                v.set(i, (username.to_owned(), entry));
            },
            None => {
                v.push((username.to_owned(), entry));
            },
        }
        proof {
            let after = v@;
            assert(keys_unique(after));
            lemma_entries_map_all(before);
            lemma_entries_map_all(after);
            let m0 = entries_map(before);
            let m1 = entries_map(after);
            assert forall|k: Seq<char>| #[trigger] m1.contains_key(k) == m0.insert(username@, new_model).contains_key(k) by {
                if m1.contains_key(k) {
                    let j = choose|j: int| 0 <= j < after.len() && (#[trigger] after[j].0@) == k;
                    if k != username@ {
                        assert(before[j].0@ == k);
                    }
                }
                if m0.contains_key(k) {
                    let j = choose|j: int| 0 <= j < before.len() && (#[trigger] before[j].0@) == k;
                    if k != username@ {
                        assert(after[j].0@ == k);
                    }
                }
                if k == username@ {
                    match idx {
                        Some(i) => { assert(after[i as int].0@ == k); },
                        None => { assert(after[before.len() as int].0@ == k); },
                    }
                }
            }
            assert forall|k: Seq<char>| #[trigger] m1.contains_key(k) implies m1[k] == m0.insert(username@, new_model)[k] by {
                let j = choose|j: int| 0 <= j < after.len() && (#[trigger] after[j].0@) == k;
                if k != username@ {
                    assert(before[j].0@ == k);
                }
            }
            assert(m1 =~= m0.insert(username@, new_model));
        }
        self.oauth2_tokens = v;
    }

    /// Stores the OAuth1 credential set, replacing any earlier one.
    pub fn save_oauth1_tokens(
        &mut self,
        access_token: String,
        token_secret: String,
        consumer_key: String,
        consumer_secret: String,
    )
        ensures
            final(self)@ == old(self)@.put_oauth1(
                OAuth1Model {
                    access_token: access_token@,
                    token_secret: token_secret@,
                    consumer_key: consumer_key@,
                    consumer_secret: consumer_secret@,
                },
            ),
    {
        proof {
            use_type_invariant(&*self);
        }
        self.oauth1_tokens = Some(
            OAuth1Token { access_token, token_secret, consumer_key, consumer_secret },
        );
    }

    /// The OAuth2 entry of `username`, if there is one.
    pub fn get_oauth2_token(&self, username: &str) -> (r: Option<Token>)
        ensures
            opt_token_view(r) == self@.get_oauth2(username@),
    {
        proof {
            use_type_invariant(self);
            lemma_entries_map_all(self.oauth2_tokens@);
        }
        match self.find_oauth2(username) {
            Some(i) => Some(Token::OAuth2(self.oauth2_tokens[i].1.duplicate())),
            None => None,
        }
    }

    /// Some OAuth2 entry together with its username, or `None` when there is none.
    /// Which entry comes back when there are several is not specified.
    pub fn first_oauth2_entry(&self) -> (r: Option<(String, OAuth2Token)>)
        ensures
            r is None <==> self@.oauth2.is_empty(),
            match r {
                Some((u, t)) => self@.oauth2.contains_key(u@) && self@.oauth2[u@] == t@,
                None => true,
            },
    {
        proof {
            use_type_invariant(self);
            lemma_entries_map_all(self.oauth2_tokens@);
        }
        if self.oauth2_tokens.len() == 0 {
            proof {
                assert forall|k: Seq<char>| !self@.oauth2.contains_key(k) by {}
                assert(self@.oauth2 =~= Map::empty());
            }
            None
        } else {
            let e = &self.oauth2_tokens[0];
            proof {
                assert(self@.oauth2.contains_key(e.0@));
            }
            Some((e.0.clone(), e.1.duplicate()))
        }
    }

    /// Some OAuth2 entry, or `None` when there is none. Which entry comes back
    /// when there are several is not specified.
    pub fn get_first_oauth2_token(&self) -> (r: Option<Token>)
        ensures
            r is None <==> self@.oauth2.is_empty(),
            match r {
                Some(t) => exists|u: Seq<char>|
                    self@.oauth2.contains_key(u) && t@ == TokenModel::OAuth2(
                        #[trigger] self@.oauth2[u],
                    ),
                None => true,
            },
    {
        match self.first_oauth2_entry() {
            Some((u, t)) => {
                let r = Token::OAuth2(t);
                proof {
                    assert(r@ == TokenModel::OAuth2(self@.oauth2[u@]));
                }
                Some(r)
            },
            None => None,
        }
    }

    /// The OAuth1 credential set, if there is one.
    pub fn get_oauth1_tokens(&self) -> (r: Option<Token>)
        ensures
            opt_token_view(r) == self@.get_oauth1(),
    {
        match &self.oauth1_tokens {
            Some(t) => Some(Token::OAuth1(t.duplicate())),
            None => None,
        }
    }

    /// The bearer token, if there is one.
    pub fn get_bearer_token(&self) -> (r: Option<Token>)
        ensures
            opt_token_view(r) == self@.get_bearer(),
    {
        match &self.bearer_token {
            Some(t) => Some(Token::Bearer(t.clone())),
            None => None,
        }
    }

    /// Removes the OAuth2 entry of `username`; the rest stays.
    pub fn clear_oauth2_token(&mut self, username: &str)
        ensures
            final(self)@ == old(self)@.remove_oauth2(username@),
    {
        proof {
            use_type_invariant(&*self);
        }
        let idx = self.find_oauth2(username);
        let mut v: Vec<(String, OAuth2Token)> = Vec::new();
        std::mem::swap(&mut v, &mut self.oauth2_tokens);
        let ghost before = v@;
        if let Some(i) = idx {
            v.remove(i);
        }
        proof {
            let after = v@;
            assert(keys_unique(after)) by {
                assert forall|a: int, b: int|
                    0 <= a < after.len() && 0 <= b < after.len() && (#[trigger] after[a].0@) == (
                    #[trigger] after[b].0@) implies a == b by {
                    if let Some(i) = idx {
                        let a0 = if a < i { a } else { a + 1 };
                        let b0 = if b < i { b } else { b + 1 };
                        assert(before[a0].0@ == before[b0].0@);
                    }
                }
            }
            lemma_entries_map_all(before);
            lemma_entries_map_all(after);
            let m0 = entries_map(before);
            let m1 = entries_map(after);
            let want = m0.remove(username@);
            assert forall|k: Seq<char>| #[trigger] m1.contains_key(k) == want.contains_key(k) by {
                if m1.contains_key(k) {
                    let j = choose|j: int| 0 <= j < after.len() && (#[trigger] after[j].0@) == k;
                    if let Some(i) = idx {
                        let j0 = if j < i { j } else { j + 1 };
                        assert(before[j0].0@ == k);
                        assert(j0 != i);
                    } else {
                        assert(before[j].0@ == k);
                    }
                }
                if want.contains_key(k) {
                    let j = choose|j: int| 0 <= j < before.len() && (#[trigger] before[j].0@) == k;
                    if let Some(i) = idx {
                        assert(j != i);
                        let j1 = if j < i { j } else { j - 1 };
                        assert(after[j1].0@ == k);
                    } else {
                        assert(after[j].0@ == k);
                    }
                }
            }
            assert forall|k: Seq<char>| #[trigger] m1.contains_key(k) implies m1[k] == want[k] by {
                let j = choose|j: int| 0 <= j < after.len() && (#[trigger] after[j].0@) == k;
                if let Some(i) = idx {
                    let j0 = if j < i { j } else { j + 1 };
                    assert(before[j0].0@ == k);
                } else {
                    assert(before[j].0@ == k);
                }
            }
            assert(m1 =~= want);
        }
        self.oauth2_tokens = v;
    }

    /// Removes the OAuth1 credential set; the rest stays.
    pub fn clear_oauth1_tokens(&mut self)
        ensures
            final(self)@ == old(self)@.remove_oauth1(),
    {
        proof {
            use_type_invariant(&*self);
        }
        self.oauth1_tokens = None;
    }

    /// Removes every credential.
    pub fn clear_all(&mut self)
        ensures
            final(self)@ == StoreModel::empty(),
    {
        self.oauth2_tokens = Vec::new();
        self.oauth1_tokens = None;
        self.bearer_token = None;
        proof {
            assert(self@.oauth2 =~= Map::empty());
        }
    }

    /// Removes the bearer token; the rest stays.
    pub fn clear_bearer_token(&mut self)
        ensures
            final(self)@ == old(self)@.remove_bearer(),
    {
        proof {
            use_type_invariant(&*self);
        }
        self.bearer_token = None;
    }

    /// The usernames that have an OAuth2 entry, each once, in no promised order.
    pub fn get_oauth2_usernames(&self) -> (r: Vec<String>)
        ensures
            r@.len() == self@.oauth2.dom().len(),
            forall|i: int| 0 <= i < r@.len() ==> self@.oauth2.contains_key(#[trigger] r@[i]@),
            forall|k: Seq<char>|
                #[trigger] self@.oauth2.contains_key(k) ==> exists|i: int|
                    0 <= i < r@.len() && (#[trigger] r@[i]@) == k,
            forall|i: int, j: int|
                0 <= i < r@.len() && 0 <= j < r@.len() && (#[trigger] r@[i]@) == (#[trigger] r@[j]@)
                    ==> i == j,
    {
        proof {
            use_type_invariant(self);
            lemma_entries_map_all(self.oauth2_tokens@);
        }
        let mut r: Vec<String> = Vec::new();
        let mut i: usize = 0;
        while i < self.oauth2_tokens.len()
            invariant
                i <= self.oauth2_tokens@.len(),
                keys_unique(self.oauth2_tokens@),
                r@.len() == i,
                forall|j: int| 0 <= j < i ==> (#[trigger] r@[j])@ == self.oauth2_tokens@[j].0@,
            decreases self.oauth2_tokens@.len() - i,
        {
            r.push(self.oauth2_tokens[i].0.clone());
            i = i + 1;
        }
        proof {
            let s = self.oauth2_tokens@;
            assert forall|k: Seq<char>| #[trigger] self@.oauth2.contains_key(k) implies exists|i: int|
                0 <= i < r@.len() && (#[trigger] r@[i]@) == k by {
                let j = choose|j: int| 0 <= j < s.len() && (#[trigger] s[j].0@) == k;
                assert(r@[j]@ == k);
            }
            assert forall|a: int, b: int|
                0 <= a < r@.len() && 0 <= b < r@.len() && (#[trigger] r@[a]@) == (#[trigger] r@[b]@)
                implies a == b by {
                assert(s[a].0@ == s[b].0@);
            }
            lemma_dom_len(s);
        }
        r
    }

    /// Whether an OAuth1 credential set is stored.
    pub fn has_oauth1_tokens(&self) -> (r: bool)
        ensures
            r == self@.oauth1 is Some,
    {
        self.oauth1_tokens.is_some()
    }
}


/// Storing an OAuth2 entry and then looking its username up gives the entry
/// back; other usernames and the other slots are as they were.
pub proof fn law_put_then_get_oauth2(m: StoreModel, username: Seq<char>, entry: OAuth2Model)
    ensures
        m.put_oauth2(username, entry).get_oauth2(username) == Some(TokenModel::OAuth2(entry)),
        forall|u: Seq<char>|
            u != username ==> #[trigger] m.put_oauth2(username, entry).get_oauth2(u) == m.get_oauth2(u),
        m.put_oauth2(username, entry).get_oauth1() == m.get_oauth1(),
        m.put_oauth2(username, entry).get_bearer() == m.get_bearer(),
{
}

/// After everything is cleared no lookup finds a credential and no username
/// is listed.
pub proof fn law_cleared_store_holds_nothing()
    ensures
        forall|u: Seq<char>| (#[trigger] StoreModel::empty().get_oauth2(u)) is None,
        StoreModel::empty().get_oauth1() is None,
        StoreModel::empty().get_bearer() is None,
        StoreModel::empty().oauth2.dom().len() == 0,
{
}

} // verus!
