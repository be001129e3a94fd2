//! Rendering a path template into an absolute path: anchoring it at the
//! root, the home directory or the configuration directory, then
//! substituting the home and target-directory tokens component by component.

use vstd::prelude::*;
use vstd::string::*;

use crate::path::comps_view;
use crate::path::path_comps;
use crate::path::AbsPath;
use crate::text::str_eq;

verus! {

/// Whether the template is anchored at the home directory: it is `~`
/// alone, or starts with `~/`.
pub open spec fn is_home_anchored(s: Seq<char>) -> bool {
    s.len() > 0 && s[0] == '~' && (s.len() == 1 || s[1] == '/')
}

/// The components a template normalizes to, before substitution: its own
/// components rooted at `/` where it is absolute, at `home` where it is
/// `~`-anchored, and at `base` otherwise.
pub open spec fn spec_normalize(
    body: Seq<char>,
    home: Seq<Seq<char>>,
    base: Seq<Seq<char>>,
) -> Seq<Seq<char>> {
    if body.len() > 0 && body[0] == '/' {
        path_comps(body)
    } else if is_home_anchored(body) {
        home + path_comps(body.skip(1))
    } else {
        base + path_comps(body)
    }
}

/// Substitution over normalized components: a `~` component starts the
/// path over at `home`, a `$TARGET` component becomes `srcdir` or vanishes
/// where `srcdir` is empty, and every other component is kept verbatim.
pub open spec fn spec_substitute(
    cs: Seq<Seq<char>>,
    home: Seq<Seq<char>>,
    srcdir: Seq<char>,
) -> Seq<Seq<char>>
    decreases cs.len(),
{
    if cs.len() == 0 {
        Seq::empty()
    } else {
        let prev = spec_substitute(cs.drop_last(), home, srcdir);
        let c = cs.last();
        if c == "~"@ {
            home
        } else if c == "$TARGET"@ {
            if srcdir.len() == 0 {
                prev
            } else {
                prev.push(srcdir)
            }
        } else {
            prev.push(c)
        }
    }
}

/// The absolute path a template renders to under the given home directory,
/// base directory and target directory name.
pub open spec fn spec_render(
    body: Seq<char>,
    home: Seq<Seq<char>>,
    base: Seq<Seq<char>>,
    srcdir: Seq<char>,
) -> Seq<Seq<char>> {
    spec_substitute(spec_normalize(body, home, base), home, srcdir)
}

/// Everything a template is rendered against: the home directory, the
/// directory holding the configuration file, and the directory name of the
/// resolved target (empty where the target is the wildcard).
pub struct RenderState<'a> {
    pub home_dir: &'a AbsPath,
    pub base_dir: &'a AbsPath,
    pub source_dir: &'a str,
}

/// A path template as written in the configuration.
pub struct Render<'a> {
    body: &'a str,
}

impl<'a> View for Render<'a> {
    type V = Seq<char>;

    closed spec fn view(&self) -> Seq<char> {
        self.body@
    }
}

impl<'a> Render<'a> {
    /// A template over the given text.
    pub fn new(body: &'a str) -> (r: Render<'a>)
        ensures
            r@ == body@,
    {
        Render { body }
    }

    /// The template's components anchored at the root, the home directory
    /// or the base directory, with the tokens not yet substituted.
    pub fn normalize(&self, state: &RenderState) -> (r: AbsPath)
        ensures
            r@ == spec_normalize(self@, state.home_dir@, state.base_dir@),
    {
        let n = self.body.unicode_len();
        if n > 0 && self.body.get_char(0) == '/' {
            AbsPath::new(self.body)
        } else if n > 0 && self.body.get_char(0) == '~' && (n == 1 || self.body.get_char(1) == '/') {
            let rest = self.body.substring_char(1, n);
            proof {
                assert(rest@ =~= self@.skip(1));
            }
            state.home_dir.append(rest)
        } else {
            state.base_dir.append(self.body)
        }
    }

    /// The absolute path the template renders to.
    pub fn render(&self, state: &RenderState) -> (r: AbsPath)
        ensures
            r@ == spec_render(self@, state.home_dir@, state.base_dir@, state.source_dir@),
    {
        let norm = self.normalize(state);
        let comps = norm.comps();
        let n = comps.len();
        let mut out: Vec<String> = Vec::new();
        let src_empty = state.source_dir.unicode_len() == 0;
        for i in 0..n
            invariant
                n == comps@.len(),
                comps_view(comps@) == norm@,
                src_empty == (state.source_dir@.len() == 0),
                comps_view(out@) == spec_substitute(
                    norm@.take(i as int),
                    state.home_dir@,
                    state.source_dir@,
                ),
        {
            proof {
                assert(norm@.take(i + 1 as int).drop_last() =~= norm@.take(i as int));
                assert(norm@.take(i + 1 as int).last() == comps@[i as int]@);
            }
            let c = &comps[i];
            if str_eq(c.as_str(), "~") {
                out = state.home_dir.cloned_comps();
            } else if str_eq(c.as_str(), "$TARGET") {
                if !src_empty {
                    let owned = String::from_str(state.source_dir);
                    proof {
                        assert(comps_view(out@.push(owned)) =~= comps_view(out@).push(owned@));
                    }
                    out.push(owned);
                }
            } else {
                let owned = c.clone();
                proof {
                    assert(comps_view(out@.push(owned)) =~= comps_view(out@).push(owned@));
                }
                out.push(owned);
            }
        }
        proof {
            assert(norm@.take(n as int) =~= norm@);
        }
        AbsPath::from_comps(out)
    }
}

} // verus!
