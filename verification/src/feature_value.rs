//! The grammar of one feature-requirement token.
//!
//! A package's feature table maps each feature name to a list of requirement
//! strings.  Each string names either another feature of the same package, an
//! optional dependency (`dep:name`), or a feature of a dependency
//! (`name/feature`, or `name?/feature` for a weak reference).

use vstd::prelude::*;

verus! {

/// One parsed requirement token found inside a feature's requirement list.
#[derive(Clone, Debug, PartialEq, Eq, PartialOrd, Ord, Hash)]
pub enum FeatureValue {
    /// Activates another feature of the same package.
    Feature(String),
    /// `dep:name` syntax: activates the optional dependency `name` without
    /// naming any of its features.
    Dep {
        /// The name of the activated dependency.
        dep_name: String,
    },
    /// `name/feature` or `name?/feature` syntax: activates feature
    /// `dep_feature` on dependency `dep_name`.
    DepFeature {
        /// The name of the dependency the feature belongs to.
        dep_name: String,
        /// The feature activated on that dependency.
        dep_feature: String,
        /// True for `name?/feature`: the feature is enabled only if the
        /// dependency is already activated by some other means.
        weak: bool,
    },
}

/// The mathematical value of a [`FeatureValue`]: the same three shapes over
/// character sequences.
pub enum FeatureValueView {
    /// Activates another feature of the same package.
    Feature { name: Seq<char> },
    /// Activates an optional dependency by name.
    Dep { dep_name: Seq<char> },
    /// Activates a feature of a dependency.
    DepFeature { dep_name: Seq<char>, dep_feature: Seq<char>, weak: bool },
}

impl View for FeatureValue {
    type V = FeatureValueView;

    open spec fn view(&self) -> FeatureValueView {
        match self {
            FeatureValue::Feature(name) => FeatureValueView::Feature { name: name@ },
            FeatureValue::Dep { dep_name } => FeatureValueView::Dep { dep_name: dep_name@ },
            FeatureValue::DepFeature { dep_name, dep_feature, weak } => FeatureValueView::DepFeature {
                dep_name: dep_name@,
                dep_feature: dep_feature@,
                weak: *weak,
            },
        }
    }
}

/// The error returned for a requirement token that matches none of the three
/// shapes of the grammar: an empty token or segment, a second `/`, or a
/// `dep:` prefix with nothing after it.
#[derive(Clone, Copy, Debug, PartialEq, Eq)]
pub struct MalformedFeatureError;

/// The index of the first occurrence of `c` in `s`, if any.
pub open spec fn find_char(s: Seq<char>, c: char) -> Option<int>
    decreases s.len(),
{
    if s.len() == 0 {
        None
    } else if s[0] == c {
        Some(0int)
    } else {
        match find_char(s.drop_first(), c) {
            None => None,
            Some(i) => Some(i + 1),
        }
    }
}

/// `find_char` returns the least index holding `c`, or `None` when `c` does
/// not occur.
pub proof fn lemma_find_char_props(s: Seq<char>, c: char)
    ensures
        match find_char(s, c) {
            None => forall|j: int| 0 <= j < s.len() ==> s[j] != c,
            Some(i) => 0 <= i < s.len() && s[i] == c && (forall|j: int| 0 <= j < i ==> s[j] != c),
        },
    decreases s.len(),
{
    if s.len() > 0 && s[0] != c {
        lemma_find_char_props(s.drop_first(), c);
        assert forall|j: int| 1 <= j < s.len() implies s.drop_first()[j - 1] == s[j] by {}
    }
}

/// If `i` is an index holding `c` with no earlier occurrence, then it is what
/// `find_char` returns.
pub proof fn lemma_find_char_is(s: Seq<char>, c: char, i: int)
    requires
        0 <= i < s.len(),
        s[i] == c,
        forall|j: int| 0 <= j < i ==> s[j] != c,
    ensures
        find_char(s, c) == Some(i),
{
    lemma_find_char_props(s, c);
}

/// If `c` occurs nowhere in `s`, `find_char` returns `None`.
pub proof fn lemma_find_char_none(s: Seq<char>, c: char)
    requires
        forall|j: int| 0 <= j < s.len() ==> s[j] != c,
    ensures
        find_char(s, c) is None,
{
    lemma_find_char_props(s, c);
}

/// Whether `s` starts with the literal prefix `dep:`.
pub open spec fn dep_prefix(s: Seq<char>) -> bool {
    s.len() >= 4 && s[0] == 'd' && s[1] == 'e' && s[2] == 'p' && s[3] == ':'
}

/// The grammar of one requirement token, applied rule by rule:
/// a token with a `dep:` prefix is a dependency activation; otherwise a token
/// without `/` is a plain feature name; otherwise the single `/` splits a
/// dependency name (with an optional trailing `?` for a weak reference) from
/// one of its feature names.  Empty tokens, empty segments and tokens with a
/// second `/` have no value.
pub open spec fn parse_spec(s: Seq<char>) -> Option<FeatureValueView> {
    if s.len() == 0 {
        None
    } else if dep_prefix(s) {
        if s.len() == 4 {
            None
        } else {
            Some(FeatureValueView::Dep { dep_name: s.subrange(4, s.len() as int) })
        }
    } else {
        match find_char(s, '/') {
            None => Some(FeatureValueView::Feature { name: s }),
            Some(f) => {
                if exists|j: int| f < j < s.len() && #[trigger] s[j] == '/' {
                    None
                } else {
                    let left = s.subrange(0, f);
                    let right = s.subrange(f + 1, s.len() as int);
                    if right.len() == 0 {
                        None
                    } else if left.len() > 0 && left.last() == '?' {
                        if left.len() == 1 {
                            None
                        } else {
                            Some(FeatureValueView::DepFeature {
                                dep_name: left.drop_last(),
                                dep_feature: right,
                                weak: true,
                            })
                        }
                    } else if left.len() == 0 {
                        None
                    } else {
                        Some(FeatureValueView::DepFeature {
                            dep_name: left,
                            dep_feature: right,
                            weak: false,
                        })
                    }
                }
            },
        }
    }
}

/// The index of the first occurrence of `c` in `s`, if any.
pub fn find_first(s: &str, c: char) -> (r: Option<usize>)
    ensures
        match r {
            Some(i) => find_char(s@, c) == Some(i as int),
            None => find_char(s@, c) is None,
        },
{
    let n = s.unicode_len();
    let mut i: usize = 0;
    while i < n
        invariant
            i <= n,
            n == s@.len(),
            forall|j: int| 0 <= j < i ==> s@[j] != c,
        decreases n - i,
    {
        if s.get_char(i) == c {
            proof {
                lemma_find_char_is(s@, c, i as int);
            }
            return Some(i);
        }
        i += 1;
    }
    proof {
        lemma_find_char_none(s@, c);
    }
    None
}

impl FeatureValue {
    /// Parses one requirement token against the grammar given by
    /// [`parse_spec`], returning an error exactly on the tokens to which the
    /// grammar gives no value.
    pub fn parse(s: &str) -> (r: Result<FeatureValue, MalformedFeatureError>)
        ensures
            match r {
                Ok(v) => parse_spec(s@) == Some(v@),
                Err(_) => parse_spec(s@) is None,
            },
    {
        let n = s.unicode_len();
        if n == 0 {
            return Err(MalformedFeatureError);
        }
        let has_dep_prefix = n >= 4 && s.get_char(0) == 'd' && s.get_char(1) == 'e'
            && s.get_char(2) == 'p' && s.get_char(3) == ':';
        if has_dep_prefix {
            if n == 4 {
                return Err(MalformedFeatureError);
            }
            return Ok(FeatureValue::Dep { dep_name: s.substring_char(4, n).to_owned() });
        }
        let f = match find_first(s, '/') {
            None => {
                return Ok(FeatureValue::Feature(s.to_owned()));
            },
            Some(f) => f,
        };
        proof {
            lemma_find_char_props(s@, '/');
        }
        let rest = s.substring_char(f + 1, n);
        if let Some(_) = find_first(rest, '/') {
            proof {
                lemma_find_char_props(rest@, '/');
                lemma_find_char_props(s@, '/');
            }
            return Err(MalformedFeatureError);
        }
        proof {
            lemma_find_char_props(rest@, '/');
            assert forall|j: int| f < j < s@.len() implies s@[j] != '/' by {
                assert(rest@[j - f - 1] == s@[j]);
            }
        }
        if f + 1 == n {
            return Err(MalformedFeatureError);
        }
        let right = rest.to_owned();
        if f >= 1 && s.get_char(f - 1) == '?' {
            if f == 1 {
                return Err(MalformedFeatureError);
            }
            let dep_name = s.substring_char(0, f - 1).to_owned();
            proof {
                assert(s@.subrange(0, f as int).drop_last() =~= s@.subrange(0, f - 1));
                assert(s@.subrange(0, f as int).last() == s@[f - 1]);
            }
            Ok(FeatureValue::DepFeature { dep_name, dep_feature: right, weak: true })
        } else {
            if f == 0 {
                return Err(MalformedFeatureError);
            }
            proof {
                assert(s@.subrange(0, f as int).last() == s@[f - 1]);
            }
            let dep_name = s.substring_char(0, f).to_owned();
            Ok(FeatureValue::DepFeature { dep_name, dep_feature: right, weak: false })
        }
    }
}

} // verus!
