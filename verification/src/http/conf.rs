//! Access to the configuration of HTTP modules.
//!
//! The host keeps, for each of the three configuration levels, a table of
//! configuration structures with one place for each module. A structure is
//! known here by its handle, a number that its owner chose.

use vstd::prelude::*;

verus! {

/// The level of an HTTP module configuration.
#[derive(Clone, Copy, Debug, PartialEq, Eq, Structural)]
pub enum HttpModuleConfType {
    /// Applies to the whole `http` block.
    Main,
    /// Applies to one `server` block.
    Server,
    /// Applies to one `location`, `if` or `limit_except` block.
    Location,
}

/// A type that holds the configuration of an HTTP module. Implement it for
/// a configuration type to reach its values through [`NgxHttpConfExt`].
pub trait HttpModuleConf {
    /// The level of this configuration.
    spec fn spec_context() -> HttpModuleConfType;

    /// The place of the owning module in the host's tables.
    spec fn spec_module() -> usize;

    /// The level of this configuration.
    fn context() -> (c: HttpModuleConfType)
        ensures
            c == Self::spec_context(),
    ;

    /// The place of the owning module in the host's tables.
    fn module() -> (m: usize)
        ensures
            m == Self::spec_module(),
    ;
}

/// The place of the HTTP core module in the host's tables: it is the
/// first of the HTTP modules.
pub const HTTP_CORE_MODULE: usize = 0;

/// The configuration of the HTTP core module for the whole `http` block.
pub struct HttpCoreMainConf;

/// The configuration of the HTTP core module for one `server` block.
pub struct HttpCoreSrvConf;

/// The configuration of the HTTP core module for one location.
pub struct HttpCoreLocConf;

impl HttpModuleConf for HttpCoreMainConf {
    open spec fn spec_context() -> HttpModuleConfType {
        HttpModuleConfType::Main
    }

    open spec fn spec_module() -> usize {
        HTTP_CORE_MODULE
    }

    fn context() -> (c: HttpModuleConfType) {
        HttpModuleConfType::Main
    }

    fn module() -> (m: usize) {
        HTTP_CORE_MODULE
    }
}

impl HttpModuleConf for HttpCoreSrvConf {
    open spec fn spec_context() -> HttpModuleConfType {
        HttpModuleConfType::Server
    }

    open spec fn spec_module() -> usize {
        HTTP_CORE_MODULE
    }

    fn context() -> (c: HttpModuleConfType) {
        HttpModuleConfType::Server
    }

    fn module() -> (m: usize) {
        HTTP_CORE_MODULE
    }
}

impl HttpModuleConf for HttpCoreLocConf {
    open spec fn spec_context() -> HttpModuleConfType {
        HttpModuleConfType::Location
    }

    open spec fn spec_module() -> usize {
        HTTP_CORE_MODULE
    }

    fn context() -> (c: HttpModuleConfType) {
        HttpModuleConfType::Location
    }

    fn module() -> (m: usize) {
        HTTP_CORE_MODULE
    }
}

/// The tables of one HTTP configuration context.
pub struct HttpConfCtx {
    pub main_conf: Vec<Option<usize>>,
    pub srv_conf: Vec<Option<usize>>,
    pub loc_conf: Vec<Option<usize>>,
}

/// The server configuration of an upstream, which has the table of the
/// server level alone, where it has one.
pub struct UpstreamSrvConf {
    pub srv_conf: Option<Vec<Option<usize>>>,
}

/// What `table` holds for the module at place `ctx_index`: nothing where
/// there is no table or the table has no such place.
pub open spec fn conf_at(table: Option<Seq<Option<usize>>>, ctx_index: usize) -> Option<usize> {
    match table {
        Some(t) => if ctx_index < t.len() {
            t[ctx_index as int]
        } else {
            None
        },
        None => None,
    }
}

/// What a table holds for the module at place `ctx_index`.
fn lookup(table: &Vec<Option<usize>>, ctx_index: usize) -> (r: Option<usize>)
    ensures
        r == conf_at(Some(table@), ctx_index),
{
    if ctx_index < table.len() {
        table[ctx_index]
    } else {
        None
    }
}

/// A type that holds HTTP module configuration.
pub trait NgxHttpConfExt {
    /// Whether the holder has configuration of level `context`.
    spec fn serves(&self, context: HttpModuleConfType) -> bool;

    /// The table of level `context`, where the holder has it.
    spec fn table(&self, context: HttpModuleConfType) -> Option<Seq<Option<usize>>>;

    /// The configuration structure of the module at place `ctx_index` on
    /// level `context`. The caller sees to it that the structure is of the
    /// type it takes it for.
    fn get_http_module_conf_unchecked(&self, context: HttpModuleConfType, ctx_index: usize) -> (r:
        Option<usize>)
        requires
            self.serves(context),
        ensures
            r == conf_at(self.table(context), ctx_index),
    ;

    /// The configuration structure of type `T`: what the table of the
    /// level of `T` holds at the place of the module of `T`.
    fn get_http_module_conf<T: HttpModuleConf>(&self) -> (r: Option<usize>)
        requires
            self.serves(T::spec_context()),
        ensures
            r == conf_at(self.table(T::spec_context()), T::spec_module()),
    {
        self.get_http_module_conf_unchecked(T::context(), T::module())
    }
}

impl NgxHttpConfExt for HttpConfCtx {
    open spec fn serves(&self, context: HttpModuleConfType) -> bool {
        true
    }

    open spec fn table(&self, context: HttpModuleConfType) -> Option<Seq<Option<usize>>> {
        match context {
            HttpModuleConfType::Main => Some(self.main_conf@),
            HttpModuleConfType::Server => Some(self.srv_conf@),
            HttpModuleConfType::Location => Some(self.loc_conf@),
        }
    }

    fn get_http_module_conf_unchecked(&self, context: HttpModuleConfType, ctx_index: usize) -> (r:
        Option<usize>) {
        match context {
            HttpModuleConfType::Main => {
                assert(self.table(context) == Some(self.main_conf@));
                lookup(&self.main_conf, ctx_index)
            },
            HttpModuleConfType::Server => {
                assert(self.table(context) == Some(self.srv_conf@));
                lookup(&self.srv_conf, ctx_index)
            },
            HttpModuleConfType::Location => {
                assert(self.table(context) == Some(self.loc_conf@));
                lookup(&self.loc_conf, ctx_index)
            },
        }
    }
}

impl NgxHttpConfExt for UpstreamSrvConf {
    open spec fn serves(&self, context: HttpModuleConfType) -> bool {
        context == HttpModuleConfType::Server
    }

    open spec fn table(&self, context: HttpModuleConfType) -> Option<Seq<Option<usize>>> {
        match self.srv_conf {
            Some(t) => Some(t@),
            None => None,
        }
    }

    fn get_http_module_conf_unchecked(&self, context: HttpModuleConfType, ctx_index: usize) -> (r:
        Option<usize>) {
        match &self.srv_conf {
            Some(t) => {
                assert(self.table(context) == Some(t@));
                lookup(t, ctx_index)
            },
            None => {
                assert(self.table(context).is_none());
                None
            },
        }
    }
}

} // verus!
