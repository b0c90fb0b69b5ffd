//! Validated value types: any `SubscriberName` or `SubscriberEmail` in
//! circulation is well formed, because parsing is the only way to build one.

use crate::strutil::{chars_of, find_char};
use unicode_segmentation::UnicodeSegmentation;
use vstd::prelude::*;
use vstd::string::StringExecFns;

verus! {

/// Whether `char::is_whitespace` holds of `c` (the Unicode `White_Space` property).
pub uninterp spec fn is_unicode_space(c: char) -> bool;

/// The number of extended grapheme clusters (user-perceived characters) of a string.
pub uninterp spec fn grapheme_len(s: Seq<char>) -> nat;

/// Relies on `char::is_whitespace` of std: true exactly for characters with
/// the Unicode `White_Space` property, a function of the character alone.
#[verifier::external_body]
fn char_is_whitespace(c: char) -> (r: bool)
    ensures
        r == is_unicode_space(c),
{
    c.is_whitespace()
}

/// Relies on `unicode_segmentation::UnicodeSegmentation::graphemes` with
/// extended grapheme clusters: the clusters are a function of the string alone.
#[verifier::external_body]
fn grapheme_count(s: &str) -> (r: usize)
    ensures
        r as nat == grapheme_len(s@),
{
    s.graphemes(true).count()
}

/// The characters a subscriber name may not contain.
pub open spec fn is_forbidden_name_char(c: char) -> bool {
    ||| c == '/'
    ||| c == '('
    ||| c == ')'
    ||| c == '"'
    ||| c == '<'
    ||| c == '>'
    ||| c == '\\'
    ||| c == '{'
    ||| c == '}'
}

/// A well-formed subscriber name: not empty nor all whitespace, at most 256
/// graphemes, and free of the forbidden characters.
pub open spec fn valid_subscriber_name(s: Seq<char>) -> bool {
    &&& exists|i: int| 0 <= i < s.len() && !is_unicode_space(s[i])
    &&& grapheme_len(s) <= 256
    &&& forall|i: int| 0 <= i < s.len() ==> !is_forbidden_name_char(s[i])
}

/// A subscriber's display name; only `parse` can construct one.
#[derive(Debug)]
pub struct SubscriberName {
    name: String,
}

impl View for SubscriberName {
    type V = Seq<char>;

    closed spec fn view(&self) -> Seq<char> {
        self.name@
    }
}

impl SubscriberName {
    /// Every constructed name satisfies the validity predicate.
    pub open spec fn wf(&self) -> bool {
        valid_subscriber_name(self@)
    }

    /// Accept `s` as a subscriber name exactly when it is non-empty after
    /// trimming, has at most 256 graphemes, and holds no forbidden character.
    pub fn parse(s: String) -> (r: Result<SubscriberName, String>)
        ensures
            match r {
                Ok(name) => valid_subscriber_name(s@) && name@ == s@ && name.wf(),
                Err(e) => !valid_subscriber_name(s@) && e@ == s@
                    + " is not a valid subscriber name."@,
            },
    {
        let chars = chars_of(s.as_str());
        let n = chars.len();

        let mut has_ink = false;
        let mut i: usize = 0;
        while i < n
            invariant
                n == s@.len(),
                chars@ == s@,
                i <= n,
                has_ink <==> exists|j: int| 0 <= j < i && !is_unicode_space(s@[j]),
            decreases n - i,
        {
            if !char_is_whitespace(chars[i]) {
                has_ink = true;
            }
            i += 1;
        }

        let too_long = grapheme_count(s.as_str()) > 256;

        let mut has_forbidden = false;
        let mut k: usize = 0;
        while k < n
            invariant
                n == s@.len(),
                chars@ == s@,
                k <= n,
                has_forbidden <==> exists|j: int| 0 <= j < k && is_forbidden_name_char(s@[j]),
            decreases n - k,
        {
            let c = chars[k];
            if c == '/' || c == '(' || c == ')' || c == '"' || c == '<' || c == '>' || c == '\\'
                || c == '{' || c == '}' {
                has_forbidden = true;
            }
            k += 1;
        }

        if !has_ink || too_long || has_forbidden {
            Err(s.concat(" is not a valid subscriber name."))
        } else {
            Ok(SubscriberName { name: s })
        }
    }

    /// Read access to the underlying string.
    pub fn as_ref(&self) -> (r: &str)
        ensures
            r@ == self@,
    {
        self.name.as_str()
    }

    /// An owned copy of the underlying string.
    pub fn as_string(&self) -> (r: String)
        ensures
            r@ == self@,
    {
        String::from_str(self.name.as_str())
    }
}

/// `s` splits into a mailbox address around a single `'@'` at position `i`:
/// a non-empty local part, a non-empty domain, no other `'@'`, and no space.
pub open spec fn email_split_at(s: Seq<char>, i: int) -> bool {
    &&& 0 < i
    &&& i + 1 < s.len()
    &&& s[i] == '@'
    &&& forall|j: int| 0 <= j < s.len() && j != i ==> s[j] != '@'
    &&& forall|j: int| 0 <= j < s.len() ==> s[j] != ' '
}

/// A well-formed email address.
pub open spec fn valid_email(s: Seq<char>) -> bool {
    exists|i: int| email_split_at(s, i)
}

/// A subscriber's email address; only `parse` can construct one.
#[derive(Debug)]
pub struct SubscriberEmail {
    email: String,
}

impl View for SubscriberEmail {
    type V = Seq<char>;

    closed spec fn view(&self) -> Seq<char> {
        self.email@
    }
}

impl SubscriberEmail {
    /// Every constructed address satisfies the validity predicate.
    pub open spec fn wf(&self) -> bool {
        valid_email(self@)
    }

    /// Accept `s` as an email address exactly when it is a mailbox address:
    /// non-empty local part, one `'@'`, non-empty domain, no spaces.
    pub fn parse(s: String) -> (r: Result<SubscriberEmail, String>)
        ensures
            match r {
                Ok(email) => valid_email(s@) && email@ == s@ && email.wf(),
                Err(e) => !valid_email(s@) && e@ == s@ + " is not a valid subscriber email."@,
            },
    {
        let chars = chars_of(s.as_str());
        let n = chars.len();

        let mut first: Option<usize> = None;
        let mut second = false;
        let mut i: usize = 0;
        while i < n
            invariant
                n == s@.len(),
                chars@ == s@,
                i <= n,
                match first {
                    None => !second && forall|j: int| 0 <= j < i ==> s@[j] != '@',
                    Some(k) => k < i && s@[k as int] == '@' && forall|j: int|
                        0 <= j < k ==> s@[j] != '@',
                },
                !second ==> (match first {
                    None => true,
                    Some(k) => forall|j: int| 0 <= j < i && j != k ==> s@[j] != '@',
                }),
                second ==> exists|j1: int, j2: int|
                    0 <= j1 < j2 < i && s@[j1] == '@' && s@[j2] == '@',
            decreases n - i,
        {
            if chars[i] == '@' {
                if first.is_none() {
                    first = Some(i);
                } else {
                    second = true;
                }
            }
            i += 1;
        }

        let space = find_char(&chars, ' ');

        let ok = match first {
            Some(k) => !second && space.is_none() && k > 0 && k + 1 < n,
            None => false,
        };

        proof {
            if ok {
                let k = first->Some_0 as int;
                assert(email_split_at(s@, k));
            } else {
                assert forall|i0: int| !email_split_at(s@, i0) by {
                    if email_split_at(s@, i0) {
                        assert(s@[i0] == '@');
                        match first {
                            None => {
                                assert(false);
                            },
                            Some(k) => {
                                assert(i0 == k as int);
                                if second {
                                    let (j1, j2) = choose|j1: int, j2: int|
                                        0 <= j1 < j2 < n && s@[j1] == '@' && s@[j2] == '@';
                                    assert(j1 != i0 || j2 != i0);
                                    assert(false);
                                }
                                if space is Some {
                                    assert(false);
                                }
                            },
                        }
                    }
                }
            }
        }

        if ok {
            Ok(SubscriberEmail { email: s })
        } else {
            Err(s.concat(" is not a valid subscriber email."))
        }
    }

    /// Read access to the underlying string.
    pub fn as_ref(&self) -> (r: &str)
        ensures
            r@ == self@,
    {
        self.email.as_str()
    }

    /// An owned copy of the underlying string.
    pub fn as_string(&self) -> (r: String)
        ensures
            r@ == self@,
    {
        String::from_str(self.email.as_str())
    }
}

/// The raw form data of a subscription request.
pub struct SubscriberData {
    pub email: String,
    pub name: String,
}

/// A validated pair of email address and name, ready to be stored.
#[derive(Debug)]
pub struct NewSubscriber {
    pub email: SubscriberEmail,
    pub name: SubscriberName,
}

impl NewSubscriber {
    /// Validate raw form data; the name is checked first, as its error wins.
    pub fn try_from(data: SubscriberData) -> (r: Result<NewSubscriber, String>)
        ensures
            match r {
                Ok(ns) => {
                    &&& valid_subscriber_name(data.name@)
                    &&& valid_email(data.email@)
                    &&& ns.name@ == data.name@
                    &&& ns.email@ == data.email@
                },
                Err(e) => {
                    &&& !(valid_subscriber_name(data.name@) && valid_email(data.email@))
                    &&& if !valid_subscriber_name(data.name@) {
                        e@ == data.name@ + " is not a valid subscriber name."@
                    } else {
                        e@ == data.email@ + " is not a valid subscriber email."@
                    }
                },
            },
    {
        let name = match SubscriberName::parse(data.name) {
            Ok(name) => name,
            Err(e) => {
                return Err(e);
            },
        };
        let email = match SubscriberEmail::parse(data.email) {
            Ok(email) => email,
            Err(e) => {
                return Err(e);
            },
        };
        Ok(NewSubscriber { email, name })
    }
}

} // verus!
