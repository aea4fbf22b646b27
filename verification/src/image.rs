//! The image reference parser: decomposes an image string into
//! `registry / name : tag @ digest`.
//!
//! The grammar, applied in order:
//! 1. split off an optional trailing `@<digest>` at the last `@`;
//! 2. split the remainder at the last `:` that comes after the last `/`
//!    (a `:` before a `/` belongs to a `host:port` registry); when no such
//!    `:` exists the tag defaults to `latest`;
//! 3. split the name part at the first `/`; the left side is a registry
//!    host when it contains `.` or `:` or is literally `localhost`,
//!    otherwise the registry defaults to `docker.io` and the whole name
//!    part is the repository name (so `nginx` resolves to
//!    `docker.io/nginx:latest`: no `library/` namespace is inserted).
//!
//! Parsing fails only when the input is empty or contains whitespace.

use vstd::prelude::*;
use vstd::string::*;
use crate::strutil::{first_idx, last_idx, lemma_first_idx, lemma_last_idx, find_first, find_last, str_contains_char, str_eq};

verus! {

/// A decomposed image reference.
#[derive(Debug, Clone, PartialEq, Eq)]
pub struct ImageRef {
    /// Registry host, `docker.io` when none is given.
    pub instance: String,
    /// Repository path.
    pub name: String,
    /// Tag, `latest` when none is given.
    pub tag: String,
    /// Content digest, when one is given.
    pub digest: Option<String>,
}

/// Mathematical model of an [`ImageRef`].
pub ghost struct ImageRefV {
    pub instance: Seq<char>,
    pub name: Seq<char>,
    pub tag: Seq<char>,
    pub digest: Option<Seq<char>>,
}

impl View for ImageRef {
    type V = ImageRefV;

    open spec fn view(&self) -> ImageRefV {
        ImageRefV {
            instance: self.instance@,
            name: self.name@,
            tag: self.tag@,
            digest: self.digest.deep_view(),
        }
    }
}

/// Why an image string was rejected.
#[derive(Debug, Clone, Copy, PartialEq, Eq)]
pub enum ImageError {
    /// The string is empty or contains whitespace.
    InvalidImage,
}

/// ASCII whitespace.
pub open spec fn is_space(c: char) -> bool {
    c == ' ' || c == '\t' || c == '\n' || c == '\r'
}

pub open spec fn has_space(s: Seq<char>) -> bool {
    exists|i: int| 0 <= i < s.len() && is_space(#[trigger] s[i])
}

/// An image string the parser accepts: non-empty and without whitespace.
pub open spec fn valid_image_str(s: Seq<char>) -> bool {
    s.len() > 0 && !has_space(s)
}

/// Step 1: the remainder before the last `@`, and the digest after it.
pub open spec fn split_digest(s: Seq<char>) -> (Seq<char>, Option<Seq<char>>) {
    let a = last_idx(s, '@');
    if a >= 0 {
        (s.subrange(0, a), Some(s.subrange(a + 1, s.len() as int)))
    } else {
        (s, None)
    }
}

/// Step 2: the name part and the tag, `latest` when none is written.
pub open spec fn split_tag(rem: Seq<char>) -> (Seq<char>, Seq<char>) {
    let c = last_idx(rem, ':');
    let sl = last_idx(rem, '/');
    if c >= 0 && c > sl {
        (rem.subrange(0, c), rem.subrange(c + 1, rem.len() as int))
    } else {
        (rem, "latest"@)
    }
}

/// Step 3: the registry host and the repository name.
pub open spec fn split_registry(name_part: Seq<char>) -> (Seq<char>, Seq<char>) {
    let f = first_idx(name_part, '/');
    if f >= 0 {
        let head = name_part.subrange(0, f);
        if head.contains('.') || head.contains(':') || head == "localhost"@ {
            (head, name_part.subrange(f + 1, name_part.len() as int))
        } else {
            ("docker.io"@, name_part)
        }
    } else {
        ("docker.io"@, name_part)
    }
}

/// What [`parse_image`] returns: the decomposition of a valid image
/// string, and nothing for an invalid one.
pub open spec fn spec_parse_image(s: Seq<char>) -> Option<ImageRefV> {
    if !valid_image_str(s) {
        None
    } else {
        let (rem, digest) = split_digest(s);
        let (name_part, tag) = split_tag(rem);
        let (instance, name) = split_registry(name_part);
        Some(ImageRefV { instance, name, tag, digest })
    }
}

/// `s` contains ASCII whitespace.
fn contains_space(s: &str) -> (r: bool)
    ensures
        r == has_space(s@),
{
    let n = s.unicode_len();
    let mut i: usize = 0;
    while i < n
        invariant
            n == s@.len(),
            i <= n,
            forall|j: int| 0 <= j < i ==> !is_space(s@[j]),
        decreases n - i,
    {
        let c = s.get_char(i);
        if c == ' ' || c == '\t' || c == '\n' || c == '\r' {
            return true;
        }
        i = i + 1;
    }
    false
}

/// Decomposes an image string, or rejects it when it is empty or holds
/// whitespace.  The input is expected not to contain `${`-placeholders;
/// those are handled before parsing.
pub fn parse_image(s: &str) -> (r: Result<ImageRef, ImageError>)
    ensures
        match r {
            Ok(img) => spec_parse_image(s@) == Some(img@),
            Err(e) => spec_parse_image(s@) is None && e == ImageError::InvalidImage,
        },
{
    let n = s.unicode_len();
    if n == 0 {
        return Err(ImageError::InvalidImage);
    }
    if contains_space(s) {
        return Err(ImageError::InvalidImage);
    }

    // Step 1: digest.
    let (rem, digest): (&str, Option<String>) = match find_last(s, '@') {
        Some(a) => {
            proof {
                lemma_last_idx(s@, '@');
            }
            (s.substring_char(0, a), Some(String::from_str(s.substring_char(a + 1, n))))
        },
        None => (s, None),
    };
    proof {
        assert(split_digest(s@) == (rem@, digest.deep_view()));
    }

    // Step 2: tag.
    let rn = rem.unicode_len();
    let c_opt = find_last(rem, ':');
    let sl_opt = find_last(rem, '/');
    let (name_part, tag): (&str, String) = match c_opt {
        Some(c) => {
            proof {
                lemma_last_idx(rem@, ':');
            }
            let is_tag_sep = match sl_opt {
                Some(sl) => c > sl,
                None => true,
            };
            if is_tag_sep {
                (rem.substring_char(0, c), String::from_str(rem.substring_char(c + 1, rn)))
            } else {
                (rem, String::from_str("latest"))
            }
        },
        None => (rem, String::from_str("latest")),
    };
    proof {
        assert(split_tag(rem@) == (name_part@, tag@));
    }

    // Step 3: registry.
    let pn = name_part.unicode_len();
    let (instance, name): (String, String) = match find_first(name_part, '/') {
        Some(f) => {
            proof {
                lemma_first_idx(name_part@, '/');
            }
            let head = name_part.substring_char(0, f);
            if str_contains_char(head, '.') || str_contains_char(head, ':') || str_eq(head, "localhost") {
                (String::from_str(head), String::from_str(name_part.substring_char(f + 1, pn)))
            } else {
                (String::from_str("docker.io"), String::from_str(name_part))
            }
        },
        None => (String::from_str("docker.io"), String::from_str(name_part)),
    };
    proof {
        assert(split_registry(name_part@) == (instance@, name@));
    }

    Ok(ImageRef { instance, name, tag, digest })
}

/// The rendered form of an image reference:
/// `instance/name:tag`, with `@digest` appended when a digest is present.
pub open spec fn spec_image_str(r: ImageRefV) -> Seq<char> {
    r.instance + "/"@ + r.name + ":"@ + r.tag + (match r.digest {
        Some(d) => "@"@ + d,
        None => Seq::<char>::empty(),
    })
}

impl ImageRef {
    /// Renders the reference as `instance/name:tag[@digest]`.
    pub fn to_text(&self) -> (s: String)
        ensures
            s@ == spec_image_str(self@),
    {
        let mut s = String::new();
        s.append(self.instance.as_str());
        s.append("/");
        s.append(self.name.as_str());
        s.append(":");
        s.append(self.tag.as_str());
        match &self.digest {
            Some(d) => {
                s.append("@");
                s.append(d.as_str());
            },
            None => {},
        }
        proof {
            assert(s@ =~= spec_image_str(self@));
        }
        s
    }
}

} // verus!
