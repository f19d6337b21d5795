//! The template store: compiled templates keyed by name, hot-swapped on
//! reload.
//!
//! The compiled registry is carried as an opaque `handlebars::Handlebars`;
//! its model in the contracts is `hb_templates`, the map from template name
//! to registered source.  Loading compiles every source or fails as a whole;
//! reloading swaps the registry wholesale on success and leaves the previous
//! one serving on failure, so a bad edit never takes down a working server.

use vstd::prelude::*;

use crate::notify::{any_modified, template_affecting, FsEvent};
use crate::reload::{ReloadHub, ReloadKind};
use crate::value::json_of;

verus! {

#[verifier::external_type_specification]
#[verifier::external_body]
pub struct ExHandlebars<'reg>(handlebars::Handlebars<'reg>);

#[verifier::external_type_specification]
#[verifier::external_body]
pub struct ExTemplateError(handlebars::TemplateError);

#[verifier::external_type_specification]
#[verifier::external_body]
pub struct ExRenderError(handlebars::RenderError);

/// The compiled registry type, always used with static lifetime here.
pub type Registry = handlebars::Handlebars<'static>;

/// What a registry holds: the source text registered under each template
/// name.  The registries this store builds differ in nothing else that
/// rendering reads, except the strict flag tracked by `hb_strict`.
pub uninterp spec fn hb_templates(h: Registry) -> Map<Seq<char>, Seq<char>>;

/// Whether a registry renders in strict-variable-resolution mode.
pub uninterp spec fn hb_strict(h: Registry) -> bool;

/// Whether a template source compiles.
pub uninterp spec fn compiles(source: Seq<char>) -> bool;

/// What rendering a named template of a given template set against a JSON
/// document produces under strict mode: the output text, or `None` when the
/// render fails.
pub uninterp spec fn rendered(
    templates: Map<Seq<char>, Seq<char>>,
    name: Seq<char>,
    data: Seq<char>,
) -> Option<Seq<char>>;

/// The empty template set.
pub open spec fn no_templates() -> Map<Seq<char>, Seq<char>> {
    Map::empty()
}

/// Relies on `handlebars::Handlebars::new`: a fresh registry holds no
/// templates and is not strict.
#[verifier::external_body]
fn hb_new() -> (r: Registry)
    ensures
        hb_templates(r) == no_templates(),
        !hb_strict(r),
{
    handlebars::Handlebars::new()
}

/// Relies on `handlebars::Handlebars::set_strict_mode`: it sets the strict
/// flag and changes nothing else.
#[verifier::external_body]
fn hb_set_strict(h: &mut Registry)
    ensures
        hb_strict(*final(h)),
        hb_templates(*final(h)) == hb_templates(*old(h)),
{
    h.set_strict_mode(true);
}

/// Relies on `handlebars::Handlebars::register_template_string`: compilation
/// succeeds or fails on the source text alone; success stores the compiled
/// template under the name, failure leaves the registry untouched.
#[verifier::external_body]
fn hb_register(
    h: &mut Registry,
    name: &str,
    source: &str,
) -> (r: Result<(), handlebars::TemplateError>)
    ensures
        r is Ok <==> compiles(source@),
        r is Ok ==> hb_templates(*final(h)) == hb_templates(*old(h)).insert(name@, source@),
        r is Err ==> hb_templates(*final(h)) == hb_templates(*old(h)),
        hb_strict(*final(h)) == hb_strict(*old(h)),
{
    h.register_template_string(name, source)
}

/// Relies on `handlebars::Handlebars::has_template`: a name is registered
/// exactly when the template map holds it.
#[verifier::external_body]
fn hb_has(h: &Registry, name: &str) -> (r: bool)
    ensures
        r == hb_templates(*h).contains_key(name@),
{
    h.has_template(name)
}

/// Relies on `handlebars::Handlebars::render`: under strict mode, with only
/// registered templates and the built-in helpers (the only registries this
/// module builds), the output is a function of the template set, the name
/// and the data document alone, and an unregistered name fails.
#[verifier::external_body]
fn hb_render(
    h: &Registry,
    name: &str,
    data: &serde_json::Value,
) -> (r: Result<String, handlebars::RenderError>)
    requires
        hb_strict(*h),
    ensures
        r matches Ok(out) ==> rendered(hb_templates(*h), name@, json_of(*data)) == Some(out@),
        r is Err ==> rendered(hb_templates(*h), name@, json_of(*data)) is None,
        r is Ok ==> hb_templates(*h).contains_key(name@),
{
    h.render(name, data)
}

/// The view of a source list: each name and source text.
pub open spec fn sources_view(sources: Seq<(String, String)>) -> Seq<(Seq<char>, Seq<char>)> {
    sources.map_values(|p: (String, String)| (p.0@, p.1@))
}

/// The template set a source list builds: every name mapped to its source,
/// a later entry winning over an earlier one with the same name.
pub open spec fn store_of(sources: Seq<(Seq<char>, Seq<char>)>) -> Map<Seq<char>, Seq<char>>
    decreases sources.len(),
{
    if sources.len() == 0 {
        Map::empty()
    } else {
        store_of(sources.drop_last()).insert(sources.last().0, sources.last().1)
    }
}

/// Whether every source in the list compiles.
pub open spec fn all_compile(sources: Seq<(Seq<char>, Seq<char>)>) -> bool {
    forall|i: int| 0 <= i < sources.len() ==> compiles(sources[i].1)
}

/// A source that failed to compile, and under which template name.
#[derive(Debug)]
pub struct LoadError {
    pub template: String,
    pub cause: handlebars::TemplateError,
}

/// A render that failed: an unknown template, or a strict-mode error inside
/// the template.
#[derive(Debug)]
pub struct RenderFailure {
    pub cause: handlebars::RenderError,
}

/// Compiled templates keyed by name, always in strict mode.
pub struct TemplateStore {
    registry: Registry,
}

impl TemplateStore {
    #[verifier::type_invariant]
    spec fn wf(&self) -> bool {
        hb_strict(self.registry)
    }

    /// The source text registered under each template name.
    pub closed spec fn templates(&self) -> Map<Seq<char>, Seq<char>> {
        hb_templates(self.registry)
    }

    /// Compiles every listed source into a fresh store, keyed by the given
    /// names, a later entry winning a name collision.  Fails as a whole on
    /// the first source that does not compile: no partial store is exposed.
    pub fn load(sources: &Vec<(String, String)>) -> (r: Result<TemplateStore, LoadError>)
        ensures
            r is Ok <==> all_compile(sources_view(sources@)),
            r matches Ok(s) ==> s.templates() == store_of(sources_view(sources@)),
            r matches Err(e) ==> exists|i: int|
                0 <= i < sources@.len() && !compiles(sources@[i].1@) && e.template@
                    == sources@[i].0@ && (forall|j: int| 0 <= j < i ==> compiles(sources@[j].1@)),
    {
        let ghost v = sources_view(sources@);
        let mut registry = hb_new();
        hb_set_strict(&mut registry);
        let n = sources.len();
        let mut i: usize = 0;
        while i < n
            invariant
                i <= n,
                n == sources@.len(),
                v == sources_view(sources@),
                hb_strict(registry),
                hb_templates(registry) == store_of(v.take(i as int)),
                forall|j: int| 0 <= j < i ==> compiles(v[j].1),
            decreases n - i,
        {
            let name = &sources[i].0;
            let source = &sources[i].1;
            proof {
                assert(v[i as int] == (sources@[i as int].0@, sources@[i as int].1@));
            }
            match hb_register(&mut registry, name.as_str(), source.as_str()) {
                Ok(_) => {
                    proof {
                        assert(v.take(i + 1).drop_last() =~= v.take(i as int));
                        assert(v.take(i + 1).last() == v[i as int]);
                    }
                },
                Err(cause) => {
                    proof {
                        assert(!compiles(sources@[i as int].1@));
                        assert forall|j: int| 0 <= j < i implies compiles(sources@[j].1@) by {
                            assert(v[j] == (sources@[j].0@, sources@[j].1@));
                        }
                        let ghost w: int = i as int;
                        assert(0 <= w < sources@.len() && !compiles(sources@[w].1@) && sources@[
                            w
                        ].0@ == sources@[w].0@ && (forall|j: int|
                            0 <= j < w ==> compiles(sources@[j].1@)));
                    }
                    return Err(LoadError { template: name.clone(), cause });
                },
            }
            i = i + 1;
        }
        proof {
            assert(v.take(n as int) =~= v);
        }
        Ok(TemplateStore { registry })
    }

    /// Whether `name` is a known template, so callers can tell "not found"
    /// from "render failed".
    pub fn has_template(&self, name: &str) -> (r: bool)
        ensures
            r == self.templates().contains_key(name@),
    {
        hb_has(&self.registry, name)
    }

    /// Renders the named template against `data` in strict mode: a template
    /// that reads an undefined field fails rather than producing empty
    /// output, and an unknown name fails too.
    pub fn render(&self, name: &str, data: &serde_json::Value) -> (r: Result<String, RenderFailure>)
        ensures
            r matches Ok(out) ==> rendered(self.templates(), name@, json_of(*data)) == Some(out@),
            r is Err ==> rendered(self.templates(), name@, json_of(*data)) is None,
            !self.templates().contains_key(name@) ==> r is Err,
    {
        proof {
            use_type_invariant(&*self);
        }
        match hb_render(&self.registry, name, data) {
            Ok(out) => Ok(out),
            Err(cause) => Err(RenderFailure { cause }),
        }
    }

    /// Recompiles the whole source list and, on success, replaces the entire
    /// template set at once.  On failure the previous set stays in place and
    /// the error is surfaced for logging.
    pub fn reload(&mut self, sources: &Vec<(String, String)>) -> (r: Result<(), LoadError>)
        ensures
            r is Ok <==> all_compile(sources_view(sources@)),
            r is Ok ==> final(self).templates() == store_of(sources_view(sources@)),
            r is Err ==> final(self).templates() == old(self).templates(),
            r matches Err(e) ==> exists|i: int|
                0 <= i < sources@.len() && !compiles(sources@[i].1@) && e.template@
                    == sources@[i].0@ && (forall|j: int| 0 <= j < i ==> compiles(sources@[j].1@)),
    {
        match Self::load(sources) {
            Ok(fresh) => {
                *self = fresh;
                Ok(())
            },
            Err(e) => Err(e),
        }
    }
}

/// Rendering is idempotent: with the template set unchanged, two renders of
/// the same template against the same document produce identical output.
pub proof fn lemma_render_idempotent(
    templates: Map<Seq<char>, Seq<char>>,
    name: Seq<char>,
    data: Seq<char>,
    first: Seq<char>,
    second: Seq<char>,
)
    requires
        rendered(templates, name, data) == Some(first),
        rendered(templates, name, data) == Some(second),
    ensures
        first == second,
{
}

/// Applies one debounced change batch: recompiles the templates when the
/// batch touched a template source, and announces a page reload when it
/// changed anything at all — whether or not the recompilation succeeded, so
/// a browser still refreshes onto the last working set.
pub fn on_change(
    store: &mut TemplateStore,
    hub: &mut ReloadHub,
    events: &Vec<FsEvent>,
    sources: &Option<Vec<(String, String)>>,
) -> (r: Result<(), LoadError>)
    requires
        template_affecting(events@) ==> sources is Some,
    ensures
        !template_affecting(events@) ==> final(store).templates() == old(store).templates() && r
            is Ok,
        template_affecting(events@) ==> match *sources {
            Some(src) => {
                &&& (r is Ok <==> all_compile(sources_view(src@)))
                &&& (r is Ok ==> final(store).templates() == store_of(sources_view(src@)))
                &&& (r is Err ==> final(store).templates() == old(store).templates())
            },
            None => true,
        },
        any_modified(events@) ==> final(hub).events() == old(hub).events().push(ReloadKind::Page),
        !any_modified(events@) ==> final(hub).events() == old(hub).events(),
        final(hub).capacity() == old(hub).capacity(),
{
    let (any, tpl) = crate::notify::classify_batch(events);
    let result: Result<(), LoadError> = if tpl {
        match sources {
            Some(src) => store.reload(src),
            None => vstd::pervasive::unreached(),
        }
    } else {
        Ok(())
    };
    if any {
        hub.publish(ReloadKind::Page);
    }
    result
}

} // verus!

use crate::notify::{has_template_extension, is_template_path};
use crate::render::last_index_of;

verus! {

/// The name a template source file gets: its path relative to the base
/// directory with the template-source extension stripped.  `None` for a
/// file that is not a template source.
pub open spec fn template_name_spec(p: Seq<char>) -> Option<Seq<char>> {
    if is_template_path(p) {
        Some(p.take(p.len() - 4))
    } else {
        None
    }
}

/// Derives the template name of one source file from its path relative to
/// the base directory.
pub fn template_name(relative: &str) -> (r: Option<String>)
    ensures
        r matches Some(n) ==> template_name_spec(relative@) == Some(n@),
        r is None ==> template_name_spec(relative@) is None,
{
    if has_template_extension(relative) {
        proof {
            let p = relative@;
            let js = last_index_of(p, '/');
            let file = if js < 0 {
                p
            } else {
                p.skip(js + 1)
            };
            crate::render::lemma_last_index_of(p, '/');
            let jd = last_index_of(file, '.');
            crate::render::lemma_last_index_of(file, '.');
            assert(jd >= 0);
            assert(file.skip(jd + 1).len() == 3);
            assert(file.take(jd).len() > 0);
            assert(file.len() >= 5);
            assert(p.len() >= file.len());
        }
        let n = relative.unicode_len();
        let name = relative.substring_char(0, n - 4);
        proof {
            assert(name@ =~= relative@.take(relative@.len() - 4));
        }
        Some(String::from_str(name))
    } else {
        None
    }
}

} // verus!
