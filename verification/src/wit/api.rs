//! What a WIT package asks to be generated: services and the types that they use.

use vstd::prelude::*;

use crate::error::{Error, ErrorView};
use crate::language::Language;
use crate::output::SupportSpec;
use crate::text::text_eq;
use crate::wit::declare::{collect_packages, ModuleExport, TypeTable};
use crate::wit::directive::wit_error;
use crate::wit::document::{WitDocument, WitExport, WitName, WitPackage};
use crate::wit::resolve::wit_type_full_name;
use crate::wit::service::{build_services, ServiceSpec};

verus! {

/// What a WIT package asks to be generated.
#[derive(Debug)]
pub struct ApiSpec {
    pub version: String,
    pub support: SupportSpec,
    pub services: Vec<ServiceSpec>,
    pub types: TypeTable,
}

/// A [`ApiSpec`] by its texts.
#[verifier::ext_equal]
pub struct ApiView {
    pub version: Seq<char>,
    pub support: SupportSpec,
    pub services: Seq<crate::wit::service::ServiceView>,
    pub types: Seq<crate::wit::declare::TypeDeclEntryView>,
}

impl View for ApiSpec {
    type V = ApiView;

    open spec fn view(&self) -> ApiView {
        ApiView {
            version: self.version@,
            support: self.support,
            services: crate::wit::service::service_spec_views(self.services@),
            types: self.types@,
        }
    }
}

/// The world of a package, which has to have exactly one.
pub open spec fn selected_world(
    doc: WitDocument,
    package: usize,
    path: Seq<char>,
) -> Result<usize, ErrorView> {
    let worlds = doc.packages@[package as int].worlds@;
    if worlds.len() == 1 {
        Ok(worlds[0].id)
    } else if worlds.len() == 0 {
        Err(crate::wit::directive::wit_failure(path, "package must declare exactly one world"@))
    } else {
        Err(
            crate::wit::directive::wit_failure(
                path,
                "package declares multiple worlds; choose one world per input"@,
            ),
        )
    }
}

/// The world of a package, which has to have exactly one.
pub fn select_world(
    doc: &WitDocument,
    package: usize,
    path: &str,
) -> (result: Result<usize, Error>)
    requires
        doc.wf(),
        package < doc.packages@.len(),
    ensures
        crate::error::outcome(result) == selected_world(*doc, package, path@),
{
    let worlds = &doc.packages[package].worlds;
    if worlds.len() == 1 {
        Ok(worlds[0].id)
    } else if worlds.len() == 0 {
        Err(wit_error(path, "package must declare exactly one world"))
    } else {
        Err(wit_error(path, "package declares multiple worlds; choose one world per input"))
    }
}

/// Whether one of the types of an interface has a full name.
pub open spec fn declares_name(
    doc: WitDocument,
    names: Seq<WitName>,
    full_name: Seq<char>,
) -> bool {
    exists|i: int|
        0 <= i < names.len() && crate::wit::resolve::full_type_name(
        doc,
        (#[trigger] names[i]).id,
    ) == full_name
}

/// Whether one of the types of an interface has a full name.
fn any_named(doc: &WitDocument, names: &Vec<WitName>, full_name: &str) -> (found: bool)
    requires
        doc.wf(),
        crate::wit::declare::names_below(names@, doc.types@.len() as int),
    ensures
        found == declares_name(*doc, names@, full_name@),
{
    let mut i: usize = 0;
    while i < names.len()
        invariant
            i <= names.len(),
            doc.wf(),
            crate::wit::declare::names_below(names@, doc.types@.len() as int),
            forall|k: int|
                0 <= k < i ==> crate::wit::resolve::full_type_name(
                    *doc,
                    (#[trigger] names@[k]).id,
                ) != full_name@,
        decreases names.len() - i,
    {
        let named = wit_type_full_name(doc, names[i].id);
        if text_eq(named.as_str(), full_name) {
            return true;
        }
        i += 1;
    }
    false
}

/// The types, those of an interface exported by the module itself.
pub open spec fn types_owned(
    types: Seq<crate::wit::declare::TypeDeclEntryView>,
    doc: WitDocument,
    names: Seq<WitName>,
) -> Seq<crate::wit::declare::TypeDeclEntryView> {
    types.map_values(
        |entry: crate::wit::declare::TypeDeclEntryView|
            if declares_name(doc, names, entry.full_name) {
            crate::wit::declare::TypeDeclEntryView {
                module_export: ModuleExport::Owned,
                ..entry
            }
        } else {
            entry
        },
    )
}

/// The types, those of an interface exported by the module itself.
fn own_types(types: TypeTable, doc: &WitDocument, names: &Vec<WitName>) -> (result: TypeTable)
    requires
        doc.wf(),
        crate::wit::declare::names_below(names@, doc.types@.len() as int),
    ensures
        result@ == types_owned(types@, *doc, names@),
{
    let ghost before = types@;
    let mut entries = types.entries;
    let mut i: usize = 0;
    while i < entries.len()
        invariant
            i <= entries.len(),
            entries.len() == before.len(),
            doc.wf(),
            crate::wit::declare::names_below(names@, doc.types@.len() as int),
            forall|k: int|
                0 <= k < i ==> (#[trigger] crate::wit::declare::type_decl_entry_views(entries@)[k])
                    == types_owned(before, *doc, names@)[k],
            forall|k: int|
                i <= k < entries.len() ==> (#[trigger] crate::wit::declare::type_decl_entry_views(
                    entries@,
                )[k]) == before[k],
        decreases entries.len() - i,
    {
        let ghost start = entries@;
        assert(crate::wit::declare::type_decl_entry_views(start)[i as int] == before[i as int]);
        if any_named(doc, names, entries[i].full_name.as_str()) {
            let entry = &mut entries[i];
            entry.module_export = ModuleExport::Owned;
        }
        assert forall|k: int| 0 <= k < entries.len() && k != i implies (
        #[trigger] crate::wit::declare::type_decl_entry_views(entries@)[k])
            == crate::wit::declare::type_decl_entry_views(start)[k] by {
            assert(entries@[k] == start[k]);
        }
        assert(crate::wit::declare::type_decl_entry_views(entries@)[i as int] =~= types_owned(
            before,
            *doc,
            names@,
        )[i as int]);
        i += 1;
    }
    let result = TypeTable { entries };
    assert(result@ =~= types_owned(before, *doc, names@));
    result
}

/// Whether a service has neither operations nor resources.
pub open spec fn is_bare_service(service: crate::wit::service::ServiceView) -> bool {
    service.operations.len() == 0 && service.resources.len() == 0
}

/// The types, those of exported interfaces without operations and resources exported by the
/// module itself.
pub open spec fn types_exported(
    types: Seq<crate::wit::declare::TypeDeclEntryView>,
    doc: WitDocument,
    exports: Seq<WitExport>,
    services: Seq<crate::wit::service::ServiceView>,
) -> Seq<crate::wit::declare::TypeDeclEntryView>
    decreases exports.len(),
{
    if exports.len() == 0 {
        types
    } else {
        let before = types_exported(types, doc, exports.drop_last(), services);
        if is_bare_service(services[exports.len() - 1]) {
            types_owned(
                before,
                doc,
                doc.interfaces@[exports.last().interface as int].types@,
            )
        } else {
            before
        }
    }
}

/// The types, those of exported interfaces without operations and resources exported by the
/// module itself.
fn export_types(
    types: TypeTable,
    doc: &WitDocument,
    exports: &Vec<WitExport>,
    services: &Vec<ServiceSpec>,
) -> (result: TypeTable)
    requires
        doc.wf(),
        crate::wit::service::exports_below(exports@, doc.interfaces@.len() as int),
        services.len() == exports.len(),
    ensures
        result@ == types_exported(
            types@,
            *doc,
            exports@,
            crate::wit::service::service_spec_views(services@),
        ),
{
    let ghost views = crate::wit::service::service_spec_views(services@);
    let mut current = types;
    let mut i: usize = 0;
    while i < exports.len()
        invariant
            i <= exports.len(),
            doc.wf(),
            crate::wit::service::exports_below(exports@, doc.interfaces@.len() as int),
            services.len() == exports.len(),
            views == crate::wit::service::service_spec_views(services@),
            current@ == types_exported(types@, *doc, exports@.take(i as int), views),
        decreases exports.len() - i,
    {
        assert(exports@.take(i + 1).drop_last() =~= exports@.take(i as int));
        assert(views[i as int] == services@[i as int]@);
        let id: usize = exports[i].interface;
        assert(doc.interface_ok(doc.interfaces@[id as int]));
        assert(views[i as int].operations.len() == services@[i as int].operations@.len());
        assert(views[i as int].resources.len() == services@[i as int].resources@.len());
        if services[i].operations.len() == 0 && services[i].resources.len() == 0 {
            current = own_types(current, doc, &doc.interfaces[id].types);
        }
        i += 1;
    }
    assert(exports@.take(i as int) =~= exports@);
    current
}

proof fn lemma_service_count(
    exports: Seq<WitExport>,
    doc: WitDocument,
    path: Seq<char>,
    language: Language,
)
    ensures
        crate::wit::service::services_outcome(exports, doc, path, language) matches Ok(services)
            ==> services.len() == exports.len(),
    decreases exports.len(),
{
    if exports.len() > 0 {
        lemma_service_count(exports.drop_last(), doc, path, language);
    }
}

/// The version of a package; one that has none is at the beginning.
pub open spec fn package_version_text(package: WitPackage) -> Seq<char> {
    match package.version {
        Some(version) => version@,
        None => "0.0.0"@,
    }
}

/// The version of a package; one that has none is at the beginning.
pub fn package_version(package: &WitPackage) -> (result: String)
    ensures
        result@ == package_version_text(*package),
{
    match &package.version {
        Some(version) => version.clone(),
        None => "0.0.0".to_owned(),
    }
}

/// What a WIT package asks to be generated, with the support files that were read for it.
pub open spec fn api_outcome(
    doc: WitDocument,
    package: usize,
    support: SupportSpec,
    path: Seq<char>,
    language: Language,
) -> Result<ApiView, ErrorView> {
    let world_id_outcome = selected_world(doc, package, path);
    let world_id = world_id_outcome->Ok_0;

    let exports = doc.worlds@[world_id as int].exports@;
    let types_outcome = crate::wit::declare::collected_packages(
        Seq::empty(),
        doc.packages@,
        doc,
        path,
        language,
    );
    let types = types_outcome->Ok_0;
    let services_outcome = crate::wit::service::services_outcome(exports, doc, path, language);
    let services = services_outcome->Ok_0;
    let types = types_exported(types, doc, exports, services);
    if world_id_outcome is Err {
        Err(world_id_outcome->Err_0)
    } else if types_outcome is Err {
        Err(types_outcome->Err_0)
    } else if services_outcome is Err {
        Err(services_outcome->Err_0)
    } else {
        Ok(ApiView {
                version: package_version_text(doc.packages@[package as int]),
                support,
                services,
                types,
        })
    }
}

/// What a WIT package asks to be generated, with the support files that were read for it.
pub fn api_spec_from_wit(
    doc: &WitDocument,
    package: usize,
    support: SupportSpec,
    path: &str,
    language: Language,
) -> (result: Result<ApiSpec, Error>)
    requires
        doc.wf(),
        package < doc.packages@.len(),
    ensures
        crate::error::outcome(result) == api_outcome(*doc, package, support, path@, language),
{
    let world_id: usize = match select_world(doc, package, path) {
        Ok(value) => value,
        Err(error) => return Err(error),
    };
    proof {
        assert(doc.package_ok(doc.packages@[package as int]));
        assert(doc.world_ok(doc.worlds@[world_id as int]));
        lemma_service_count(
            doc.worlds@[world_id as int].exports@,
            *doc,
            path@,
            language,
        );
    }
    let exports = &doc.worlds[world_id].exports;
    proof {
        assert forall|k: int| 0 <= k < doc.packages@.len() implies crate::wit::declare::ids_below(
            (#[trigger] doc.packages@[k]).interfaces@,
            doc.interfaces@.len() as int,
        ) by {
            assert(doc.package_ok(doc.packages@[k]));
        }
    }
    let types = match collect_packages(TypeTable::new(), &doc.packages, doc, path, language) {
        Ok(value) => value,
        Err(error) => return Err(error),
    };
    let services = match build_services(exports, doc, path, language) {
        Ok(value) => value,
        Err(error) => return Err(error),
    };
    let types = export_types(types, doc, exports, &services);
    Ok(ApiSpec {
        version: package_version(&doc.packages[package]),
        support,
        services,
        types,
    })
}

/// Which module exports a type changes nothing else of it.
pub proof fn law_exports_keep_types(
    types: Seq<crate::wit::declare::TypeDeclEntryView>,
    doc: WitDocument,
    exports: Seq<WitExport>,
    services: Seq<crate::wit::service::ServiceView>,
)
    ensures
        types_exported(types, doc, exports, services).len() == types.len(),
        forall|i: int|
            0 <= i < types.len() ==> (#[trigger] types_exported(
                types,
                doc,
                exports,
                services,
            )[i]).full_name == types[i].full_name && types_exported(
                types,
                doc,
                exports,
                services,
            )[i].decl == types[i].decl,
    decreases exports.len(),
{
    if exports.len() > 0 {
        law_exports_keep_types(types, doc, exports.drop_last(), services);
    }
}

/// The declared types of what is generated stand in the order of their full names, each once.
pub proof fn law_api_types_are_in_order(
    doc: WitDocument,
    package: usize,
    support: SupportSpec,
    path: Seq<char>,
    language: Language,
)
    ensures
        api_outcome(doc, package, support, path, language) matches Ok(api)
            ==> crate::wit::declare::types_ascending(api.types),
{
    crate::wit::declare::law_declared_types_are_in_order(
        Seq::empty(),
        doc.packages@,
        doc,
        path,
        language,
    );
    match api_outcome(doc, package, support, path, language) {
        Ok(api) => {
            let world = selected_world(doc, package, path)->Ok_0;
            let exports = doc.worlds@[world as int].exports@;
            let types = crate::wit::declare::collected_packages(
                Seq::empty(),
                doc.packages@,
                doc,
                path,
                language,
            )->Ok_0;
            let services = crate::wit::service::services_outcome(
                exports,
                doc,
                path,
                language,
            )->Ok_0;
            law_exports_keep_types(types, doc, exports, services);
            assert forall|i: int, j: int|
                0 <= i < j < api.types.len() implies crate::paths::text_before(
                (#[trigger] api.types[i]).full_name,
                (#[trigger] api.types[j]).full_name,
            ) by {
                assert(crate::paths::text_before(types[i].full_name, types[j].full_name));
            }
        },
        Err(_) => {},
    }
}

} // verus!
