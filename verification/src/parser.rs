//! Holding a run's configuration and turning it into link entries.

use vstd::prelude::*;

use crate::config::Config;
use crate::context::Context;
use crate::dotfile::DotFile;
use crate::mapping::dotfiles_match;
use crate::mapping::spec_config_dotfiles;

verus! {

/// One run's parser: the run context and, once handed over, the
/// configuration.
pub struct Parser<'a> {
    pub cx: &'a Context,
    pub config: Option<Config>,
}

impl<'a> Parser<'a> {
    /// A parser for the given run, with no configuration yet.
    pub fn with(cx: &'a Context) -> (r: Parser<'a>)
        ensures
            r.cx == cx,
            r.config is None,
    {
        Parser { cx, config: None }
    }

    /// Hand the parser its configuration; one already held is kept.
    pub fn read_config(&mut self, config: Config)
        ensures
            final(self).cx == old(self).cx,
            old(self).config is None ==> final(self).config == Some(config),
            old(self).config is Some ==> final(self).config == old(self).config,
    {
        match &self.config {
            Some(_) => {},
            None => {
                self.config = Some(config);
            },
        }
    }

    /// The configuration held, if any.
    pub fn config(&self) -> (r: Option<&Config>)
        ensures
            r is Some <==> self.config is Some,
            r matches Some(c) ==> (self.config matches Some(held) && *c == held),
    {
        match &self.config {
            Some(config) => Some(config),
            None => None,
        }
    }

    /// The link entries the held configuration means for this run, or
    /// `None` while no configuration was handed over.
    pub fn parse(&self) -> (r: Option<Vec<DotFile>>)
        requires
            self.config matches Some(c) ==> spec_config_dotfiles(
                c,
                self.cx.client_os,
                self.cx.home_dir@,
                self.cx.base_dir@,
            ).len() <= u32::MAX,
        ensures
            r is Some <==> self.config is Some,
            r matches Some(v) ==> (self.config matches Some(c) && dotfiles_match(
                v@,
                spec_config_dotfiles(c, self.cx.client_os, self.cx.home_dir@, self.cx.base_dir@),
            )),
    {
        match &self.config {
            Some(config) => Some(crate::mapping::map(self.cx, config)),
            None => None,
        }
    }
}

} // verus!
