//! Task parameters: the `key=value` token parser, the resolved parameter
//! mapping, and the parameter schema of a task definition.
use vstd::prelude::*;
use vstd::string::{StrSliceExecFns, StringExecFns};
use crate::error::SigilError;
use crate::kv::{
    has_key, keys_distinct, lemma_pairs_map_at, lemma_pairs_map_dom, lemma_pairs_map_push,
    lemma_pairs_map_update, pairs_map,
};

verus! {

/// A mapping from parameter name to value, kept as a list of pairs in order
/// of first insertion, with no name twice.
#[derive(Debug)]
pub struct ParamMap {
    pub entries: Vec<(String, String)>,
}

/// The character view of a list of string pairs.
pub open spec fn entry_views(es: Seq<(String, String)>) -> Seq<(Seq<char>, Seq<char>)> {
    es.map_values(|e: (String, String)| (e.0@, e.1@))
}

impl View for ParamMap {
    type V = Map<Seq<char>, Seq<char>>;

    open spec fn view(&self) -> Map<Seq<char>, Seq<char>> {
        pairs_map(self.pairs())
    }
}

impl ParamMap {
    /// The entries as character sequences, in order.
    pub open spec fn pairs(&self) -> Seq<(Seq<char>, Seq<char>)> {
        entry_views(self.entries@)
    }

    /// No name occurs twice.
    pub open spec fn wf(&self) -> bool {
        keys_distinct(self.pairs())
    }

    /// The empty mapping.
    pub fn new() -> (r: ParamMap)
        ensures
            r.wf(),
            r.pairs().len() == 0,
            r@ == Map::<Seq<char>, Seq<char>>::empty(),
    {
        let r = ParamMap { entries: Vec::new() };
        assert(r.pairs() =~= Seq::<(Seq<char>, Seq<char>)>::empty());
        r
    }

    /// Number of entries.
    pub fn len(&self) -> (r: usize)
        ensures
            r == self.pairs().len(),
    {
        self.entries.len()
    }

    /// Position of the entry named `key`, if any.
    pub fn find(&self, key: &str) -> (r: Option<usize>)
        requires
            self.wf(),
        ensures
            match r {
                Some(i) => i < self.pairs().len() && self.pairs()[i as int].0 == key@,
                None => !has_key(self.pairs(), key@),
            },
    {
        let mut i: usize = 0;
        while i < self.entries.len()
            invariant
                i <= self.entries@.len(),
                forall|j: int| 0 <= j < i ==> self.pairs()[j].0 != key@,
            decreases self.entries@.len() - i,
        {
            if crate::text::same_text(self.entries[i].0.as_str(), key) {
                return Some(i);
            }
            i = i + 1;
        }
        None
    }

    /// Whether a value is bound to `key`.
    pub fn contains_key(&self, key: &str) -> (r: bool)
        requires
            self.wf(),
        ensures
            r == self@.contains_key(key@),
    {
        proof {
            lemma_pairs_map_dom(self.pairs(), key@);
        }
        self.find(key).is_some()
    }

    /// The value bound to `key`, if any.
    pub fn get(&self, key: &str) -> (r: Option<&String>)
        requires
            self.wf(),
        ensures
            match r {
                Some(v) => self@.contains_key(key@) && self@[key@] == v@,
                None => !self@.contains_key(key@),
            },
    {
        proof {
            lemma_pairs_map_dom(self.pairs(), key@);
        }
        match self.find(key) {
            Some(i) => {
                proof {
                    lemma_pairs_map_at(self.pairs(), i as int);
                }
                Some(&self.entries[i].1)
            },
            None => None,
        }
    }

    /// Binds `value` to `key`, replacing an earlier value of `key`.
    pub fn insert(&mut self, key: String, value: String)
        requires
            old(self).wf(),
        ensures
            final(self).wf(),
            final(self)@ == old(self)@.insert(key@, value@),
    {
        let ghost ps = self.pairs();
        match self.find(key.as_str()) {
            Some(i) => {
                self.entries.set(i, (key, value));
                proof {
                    assert(self.pairs() =~= ps.update(i as int, (ps[i as int].0, value@)));
                    lemma_pairs_map_update(ps, i as int, value@);
                }
            },
            None => {
                let ghost k = key@;
                let ghost v = value@;
                self.entries.push((key, value));
                proof {
                    assert(self.pairs() =~= ps.push((k, v)));
                    lemma_pairs_map_push(ps, k, v);
                }
            },
        }
    }

    /// A copy with the same entries in the same order.
    pub fn duplicate(&self) -> (r: ParamMap)
        ensures
            r.entries@ == self.entries@,
    {
        let mut es: Vec<(String, String)> = Vec::new();
        let mut i: usize = 0;
        while i < self.entries.len()
            invariant
                i <= self.entries@.len(),
                es@ == self.entries@.subrange(0, i as int),
            decreases self.entries@.len() - i,
        {
            let e = (self.entries[i].0.clone(), self.entries[i].1.clone());
            es.push(e);
            assert(es@ =~= self.entries@.subrange(0, i + 1));
            i = i + 1;
        }
        assert(es@ =~= self.entries@);
        ParamMap { entries: es }
    }
}

/// Position of the first `=` in `t` at or after `i`.
pub open spec fn sep_from(t: Seq<char>, i: int) -> Option<int>
    decreases t.len() - i,
{
    if i < 0 || i >= t.len() {
        None
    } else if t[i] == '=' {
        Some(i)
    } else {
        sep_from(t, i + 1)
    }
}

/// A token has the form `key=value`: it holds a `=`.
pub open spec fn is_param_token(t: Seq<char>) -> bool {
    sep_from(t, 0) is Some
}

/// The key and the value of a token: what stands before its first `=`, and
/// everything after it.
pub open spec fn token_pair(t: Seq<char>) -> (Seq<char>, Seq<char>) {
    match sep_from(t, 0) {
        Some(p) => (t.subrange(0, p), t.subrange(p + 1, t.len() as int)),
        None => (t, Seq::empty()),
    }
}

/// The key/value pairs of a sequence of tokens, in order.
pub open spec fn token_pairs(ts: Seq<String>) -> Seq<(Seq<char>, Seq<char>)> {
    ts.map_values(|t: String| token_pair(t@))
}

/// The mapping that a sequence of well-formed tokens denotes: each token
/// binds its key to its value, and a later token overrides an earlier one.
pub open spec fn parsed_params(ts: Seq<String>) -> Map<Seq<char>, Seq<char>> {
    pairs_map(token_pairs(ts))
}

/// Parsing well-formed tokens with distinct keys gives a mapping with
/// exactly their pairs: each token's key is bound to its value, and every
/// bound key is the key of some token.
pub proof fn lemma_parsed_params_exact(ts: Seq<String>)
    requires
        forall|i: int| 0 <= i < ts.len() ==> is_param_token(#[trigger] ts[i]@),
        keys_distinct(token_pairs(ts)),
    ensures
        forall|i: int|
            0 <= i < ts.len() ==> parsed_params(ts).contains_key(#[trigger] token_pair(ts[i]@).0)
                && parsed_params(ts)[token_pair(ts[i]@).0] == token_pair(ts[i]@).1,
        forall|k: Seq<char>|
            #[trigger] parsed_params(ts).contains_key(k) ==> exists|i: int|
                0 <= i < ts.len() && token_pair(ts[i]@).0 == k,
{
    let ps = token_pairs(ts);
    assert forall|i: int| 0 <= i < ts.len() implies parsed_params(ts).contains_key(
        #[trigger] token_pair(ts[i]@).0,
    ) && parsed_params(ts)[token_pair(ts[i]@).0] == token_pair(ts[i]@).1 by {
        lemma_pairs_map_at(ps, i);
    }
    assert forall|k: Seq<char>| #[trigger] parsed_params(ts).contains_key(k) implies exists|i: int|
        0 <= i < ts.len() && token_pair(ts[i]@).0 == k by {
        lemma_pairs_map_dom(ps, k);
        let i = choose|i: int| 0 <= i < ps.len() && ps[i].0 == k;
        assert(token_pair(ts[i]@).0 == k);
    }
}

/// Splits a token at its first `=` into key and value.
pub fn split_token(t: &str) -> (r: Option<(String, String)>)
    ensures
        match r {
            Some(kv) => is_param_token(t@) && (kv.0@, kv.1@) == token_pair(t@),
            None => !is_param_token(t@),
        },
{
    let n = t.unicode_len();
    let mut i: usize = 0;
    while i < n
        invariant
            n == t@.len(),
            i <= n,
            sep_from(t@, 0) == sep_from(t@, i as int),
        decreases n - i,
    {
        if t.get_char(i) == '=' {
            let key = String::from_str(t.substring_char(0, i));
            let value = String::from_str(t.substring_char(i + 1, n));
            return Some((key, value));
        }
        i = i + 1;
    }
    None
}

/// Parses `key=value` tokens into a mapping; a later token overrides an
/// earlier one with the same key. Fails on the first token without `=`.
pub fn parse_parameters(params: &[String]) -> (r: Result<ParamMap, SigilError>)
    ensures
        r is Ok <==> forall|i: int| 0 <= i < params@.len() ==> is_param_token(#[trigger] params@[i]@),
        r matches Ok(m) ==> m.wf() && m@ == parsed_params(params@),
        r matches Err(e) ==> exists|i: int|
            0 <= i < params@.len() && !is_param_token(#[trigger] params@[i]@) && (forall|j: int|
                0 <= j < i ==> is_param_token(#[trigger] params@[j]@)) && e
                == SigilError::MalformedParameter(params@[i]),
{
    let mut parsed = ParamMap::new();
    let mut i: usize = 0;
    while i < params.len()
        invariant
            i <= params@.len(),
            parsed.wf(),
            parsed@ == parsed_params(params@.subrange(0, i as int)),
            forall|j: int| 0 <= j < i ==> is_param_token(#[trigger] params@[j]@),
        decreases params@.len() - i,
    {
        match split_token(params[i].as_str()) {
            Some((key, value)) => {
                let ghost before = token_pairs(params@.subrange(0, i as int));
                assert(token_pairs(params@.subrange(0, i + 1)) =~= before.push(
                    token_pair(params@[i as int]@),
                ));
                proof {
                    lemma_pairs_map_push(before, key@, value@);
                }
                parsed.insert(key, value);
            },
            None => {
                return Err(SigilError::MalformedParameter(params[i].clone()));
            },
        }
        i = i + 1;
    }
    assert(params@.subrange(0, params@.len() as int) =~= params@);
    Ok(parsed)
}


/// The declared type of a parameter; it is carried, not enforced.
#[derive(Clone, Copy, Debug, PartialEq, Eq, Structural)]
pub enum ParameterType {
    String,
    Integer,
    Boolean,
    Float,
    Path,
    Url,
}

/// The schema of one parameter of a task definition.
#[derive(Debug)]
pub struct TaskParameter {
    pub description: String,
    pub required: bool,
    pub default_value: Option<String>,
    pub parameter_type: ParameterType,
}

/// A schema entry whose parameter is required, has no default, and was not
/// supplied.
pub open spec fn is_missing(
    entry: (String, TaskParameter),
    supplied: Map<Seq<char>, Seq<char>>,
) -> bool {
    entry.1.required && entry.1.default_value is None && !supplied.contains_key(entry.0@)
}

/// The default of parameter `k`: that of the last schema entry named `k`
/// that declares one.
pub open spec fn default_for(schema: Seq<(String, TaskParameter)>, k: Seq<char>) -> Option<
    Seq<char>,
>
    decreases schema.len(),
{
    if schema.len() == 0 {
        None
    } else {
        let e = schema.last();
        match e.1.default_value {
            Some(d) if e.0@ == k => Some(d@),
            _ => default_for(schema.drop_last(), k),
        }
    }
}

/// The supplied values, completed with the schema's defaults for the
/// parameters that were not supplied.
pub open spec fn resolved(
    schema: Seq<(String, TaskParameter)>,
    supplied: Map<Seq<char>, Seq<char>>,
) -> Map<Seq<char>, Seq<char>> {
    Map::new(
        |k: Seq<char>| supplied.contains_key(k) || default_for(schema, k) is Some,
        |k: Seq<char>|
            if supplied.contains_key(k) {
                supplied[k]
            } else {
                default_for(schema, k)->Some_0
            },
    )
}

/// Fails with the first schema entry that is required, has no default and
/// was not supplied; extra supplied keys are accepted.
pub fn check_required(schema: &Vec<(String, TaskParameter)>, supplied: &ParamMap) -> (r: Result<
    (),
    SigilError,
>)
    requires
        supplied.wf(),
    ensures
        r is Ok <==> forall|i: int|
            0 <= i < schema@.len() ==> !is_missing(#[trigger] schema@[i], supplied@),
        r matches Err(e) ==> exists|i: int|
            0 <= i < schema@.len() && is_missing(#[trigger] schema@[i], supplied@) && (forall|
                j: int,
            | 0 <= j < i ==> !is_missing(#[trigger] schema@[j], supplied@)) && e
                == SigilError::MissingRequiredParameter(schema@[i].0),
{
    let mut i: usize = 0;
    while i < schema.len()
        invariant
            supplied.wf(),
            i <= schema@.len(),
            forall|j: int| 0 <= j < i ==> !is_missing(#[trigger] schema@[j], supplied@),
        decreases schema@.len() - i,
    {
        let entry = &schema[i];
        if entry.1.required && entry.1.default_value.is_none() && !supplied.contains_key(
            entry.0.as_str(),
        ) {
            return Err(SigilError::MissingRequiredParameter(entry.0.clone()));
        }
        i = i + 1;
    }
    Ok(())
}

/// Completes the supplied values with the schema's defaults.
pub fn resolve_parameters(schema: &Vec<(String, TaskParameter)>, supplied: &ParamMap) -> (r:
    ParamMap)
    requires
        supplied.wf(),
    ensures
        r.wf(),
        r@ == resolved(schema@, supplied@),
{
    let mut out = supplied.duplicate();
    let mut i: usize = 0;
    assert(out@ =~= resolved(schema@.subrange(0, 0), supplied@));
    while i < schema.len()
        invariant
            supplied.wf(),
            out.wf(),
            i <= schema@.len(),
            out@ == resolved(schema@.subrange(0, i as int), supplied@),
        decreases schema@.len() - i,
    {
        let ghost before = schema@.subrange(0, i as int);
        let ghost after = schema@.subrange(0, i + 1);
        assert(after.drop_last() =~= before);
        assert(after.last() == schema@[i as int]);
        let entry = &schema[i];
        match &entry.1.default_value {
            Some(d) => {
                if !supplied.contains_key(entry.0.as_str()) {
                    out.insert(entry.0.clone(), d.clone());
                }
            },
            None => {},
        }
        assert(out@ =~= resolved(after, supplied@));
        i = i + 1;
    }
    assert(schema@.subrange(0, schema@.len() as int) =~= schema@);
    out
}

/// The placeholder that stands for parameter `k` in a command template.
pub open spec fn placeholder(k: Seq<char>) -> Seq<char> {
    "${"@ + k + "}"@
}

/// `s` after substituting the first `i` pairs of `ps`, one after the other.
pub open spec fn substitute_upto(s: Seq<char>, ps: Seq<(Seq<char>, Seq<char>)>, i: int) -> Seq<
    char,
>
    decreases i,
{
    if i <= 0 {
        s
    } else {
        crate::text::replace_all(
            substitute_upto(s, ps, i - 1),
            placeholder(ps[i - 1].0),
            ps[i - 1].1,
        )
    }
}

/// `s` with, for each pair in turn, every placeholder of its key replaced by
/// its value.
pub open spec fn substitute_all(s: Seq<char>, ps: Seq<(Seq<char>, Seq<char>)>) -> Seq<char> {
    substitute_upto(s, ps, ps.len() as int)
}

/// Replaces `${key}` by the value of `key`, for every entry of `params` in
/// order; a plain substring replacement, not a tokenizer.
pub fn substitute(template: &str, params: &ParamMap) -> (r: String)
    ensures
        r@ == substitute_all(template@, params.pairs()),
{
    let mut cur = String::from_str(template);
    let mut i: usize = 0;
    while i < params.entries.len()
        invariant
            i <= params.pairs().len(),
            cur@ == substitute_upto(template@, params.pairs(), i as int),
        decreases params.pairs().len() - i,
    {
        let pat = crate::text::join3("${", params.entries[i].0.as_str(), "}");
        proof {
            reveal_strlit("}");
        }
        cur = crate::text::replace(cur.as_str(), pat.as_str(), params.entries[i].1.as_str());
        i = i + 1;
    }
    cur
}

/// Substitutes parameters into each argument independently.
pub fn substitute_each(args: &Vec<String>, params: &ParamMap) -> (r: Vec<String>)
    ensures
        r@.len() == args@.len(),
        forall|i: int|
            0 <= i < args@.len() ==> (#[trigger] r@[i])@ == substitute_all(
                args@[i]@,
                params.pairs(),
            ),
{
    let mut out: Vec<String> = Vec::new();
    let mut i: usize = 0;
    while i < args.len()
        invariant
            i <= args@.len(),
            out@.len() == i,
            forall|j: int|
                0 <= j < i ==> (#[trigger] out@[j])@ == substitute_all(
                    args@[j]@,
                    params.pairs(),
                ),
        decreases args@.len() - i,
    {
        out.push(substitute(args[i].as_str(), params));
        i = i + 1;
    }
    out
}

} // verus!
