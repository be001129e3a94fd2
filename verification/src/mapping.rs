//! Mapping a configuration to the flat collection of link entries it means
//! on the detected operating system.

use vstd::prelude::*;

use crate::config::Config;
use crate::config::Section;
use crate::context::Context;
use crate::dotfile::DotFile;
use crate::render::spec_render;
use crate::render::Render;
use crate::render::RenderState;
use crate::target::spec_dir;
use crate::target::spec_pick;
use crate::target::Target;

verus! {

/// The mathematical shape of one link entry, before ids are assigned.
pub ghost struct DotFileModel {
    pub name: Seq<char>,
    pub src: Seq<Seq<char>>,
    pub dst: Seq<Seq<char>>,
}

/// The entries one section contributes: none where no declared target
/// matches `os`, else one per file block, rendered under the resolved
/// target's directory name.
pub open spec fn spec_section_dotfiles(
    sec: Section,
    os: crate::client_os::Type,
    home: Seq<Seq<char>>,
    base: Seq<Seq<char>>,
) -> Seq<DotFileModel> {
    match spec_pick(os, sec.target@) {
        None => Seq::empty(),
        Some(t) => Seq::new(
            sec.files@.len(),
            |i: int|
                DotFileModel {
                    name: sec.files@[i].name@,
                    src: spec_render(sec.from@, home, base, spec_dir(t)),
                    dst: spec_render(sec.files@[i].to@, home, base, spec_dir(t)),
                },
        ),
    }
}

/// The entries of the sections `secs`, in declaration order.
pub open spec fn spec_sections_dotfiles(
    secs: Seq<Section>,
    os: crate::client_os::Type,
    home: Seq<Seq<char>>,
    base: Seq<Seq<char>>,
) -> Seq<DotFileModel>
    decreases secs.len(),
{
    if secs.len() == 0 {
        Seq::empty()
    } else {
        spec_sections_dotfiles(secs.drop_last(), os, home, base) + spec_section_dotfiles(
            secs.last(),
            os,
            home,
            base,
        )
    }
}

/// Every entry the whole configuration emits for `os`, in order.
pub open spec fn spec_config_dotfiles(
    config: Config,
    os: crate::client_os::Type,
    home: Seq<Seq<char>>,
    base: Seq<Seq<char>>,
) -> Seq<DotFileModel> {
    spec_sections_dotfiles(config.map@, os, home, base)
}

/// Whether the entry `d` realises the model `m` at position `i`: ids are
/// assigned 1, 2, ... in emission order.
pub open spec fn dotfile_matches(d: DotFile, m: DotFileModel, i: int) -> bool {
    &&& d.id == i + 1
    &&& d.name@ == m.name
    &&& d.src@ == m.src
    &&& d.dst@ == m.dst
}

/// Whether the entries `v` realise the models `m`, id by id.
pub open spec fn dotfiles_match(v: Seq<DotFile>, m: Seq<DotFileModel>) -> bool {
    &&& v.len() == m.len()
    &&& forall|i: int| 0 <= i < m.len() ==> #[trigger] dotfile_matches(v[i], m[i], i)
}

/// Emitted entries only accumulate: a prefix of the sections emits no more
/// than all of them.
proof fn lemma_sections_prefix_len(
    secs: Seq<Section>,
    os: crate::client_os::Type,
    home: Seq<Seq<char>>,
    base: Seq<Seq<char>>,
    i: int,
)
    requires
        0 <= i <= secs.len(),
    ensures
        spec_sections_dotfiles(secs.take(i), os, home, base).len() <= spec_sections_dotfiles(
            secs,
            os,
            home,
            base,
        ).len(),
    decreases secs.len() - i,
{
    if i == secs.len() {
        assert(secs.take(i) =~= secs);
    } else {
        lemma_sections_prefix_len(secs, os, home, base, i + 1);
        assert(secs.take(i + 1).drop_last() =~= secs.take(i));
        assert(secs.take(i + 1).last() == secs[i]);
    }
}

/// The link entries the configuration calls for on this run's operating
/// system: one per file block of every section whose targets match, ids
/// assigned 1, 2, ... in declaration order, sources rendered from the
/// section's `from` template and destinations from each block's `to`
/// template.
#[verifier::loop_isolation(false)]
pub fn map(cx: &Context, config: &Config) -> (r: Vec<DotFile>)
    requires
        spec_config_dotfiles(*config, cx.client_os, cx.home_dir@, cx.base_dir@).len() <= u32::MAX,
    ensures
        dotfiles_match(r@, spec_config_dotfiles(*config, cx.client_os, cx.home_dir@, cx.base_dir@)),
{
    let ghost home = cx.home_dir@;
    let ghost base = cx.base_dir@;
    let ghost os = cx.client_os;
    let mut out: Vec<DotFile> = Vec::new();
    let ns = config.map.len();
    for si in 0..ns
        invariant
            dotfiles_match(out@, spec_sections_dotfiles(config.map@.take(si as int), os, home, base)),
    {
        proof {
            assert(config.map@.take(si + 1 as int).drop_last() =~= config.map@.take(si as int));
            assert(config.map@.take(si + 1 as int).last() == config.map@[si as int]);
            lemma_sections_prefix_len(config.map@, os, home, base, si + 1);
        }
        let section = &config.map[si];
        let ghost sec_model = spec_section_dotfiles(*section, os, home, base);
        let picked = Target::pick(&cx.client_os, section.target.as_slice());
        if let Some(t) = picked {
            let dir = t.dir();
            let nf = section.files.len();
            for fi in 0..nf
                invariant
                    picked == spec_pick(os, section.target@),
                    picked == Some(t),
                    dir@ == spec_dir(t),
                    nf == section.files@.len(),
                    out@.len() == spec_sections_dotfiles(config.map@.take(si as int), os, home, base).len()
                        + fi,
                    dotfiles_match(
                        out@,
                        spec_sections_dotfiles(config.map@.take(si as int), os, home, base)
                            + sec_model.take(fi as int),
                    ),
            {
                let file = &section.files[fi];
                let state = RenderState {
                    home_dir: &cx.home_dir,
                    base_dir: &cx.base_dir,
                    source_dir: dir,
                };
                let to = Render::new(file.to.as_str());
                let from = Render::new(section.from.as_str());
                proof {
                    assert(sec_model.len() == nf);
                    assert(out@.len() + (nf - fi) <= spec_config_dotfiles(
                        *config,
                        os,
                        home,
                        base,
                    ).len());
                }
                let id = (out.len() as u32) + 1;
                let df = DotFile {
                    id,
                    name: file.name.clone(),
                    src: from.render(&state),
                    dst: to.render(&state),
                };
                proof {
                    let prev = spec_sections_dotfiles(config.map@.take(si as int), os, home, base)
                        + sec_model.take(fi as int);
                    assert(sec_model[fi as int] == (DotFileModel {
                        name: section.files@[fi as int].name@,
                        src: spec_render(section.from@, home, base, spec_dir(t)),
                        dst: spec_render(section.files@[fi as int].to@, home, base, spec_dir(t)),
                    }));
                    assert(dotfile_matches(df, sec_model[fi as int], prev.len() as int));
                    assert((spec_sections_dotfiles(config.map@.take(si as int), os, home, base)
                        + sec_model.take(fi + 1 as int)) =~= prev.push(sec_model[fi as int]));
                }
                out.push(df);
            }
            proof {
                assert(sec_model.take(nf as int) =~= sec_model);
            }
        } else {
            proof {
                assert(sec_model =~= Seq::<DotFileModel>::empty());
                assert((spec_sections_dotfiles(config.map@.take(si as int), os, home, base)
                    + sec_model) =~= spec_sections_dotfiles(
                    config.map@.take(si as int),
                    os,
                    home,
                    base,
                ));
            }
        }
    }
    proof {
        assert(config.map@.take(ns as int) =~= config.map@);
    }
    out
}

} // verus!
