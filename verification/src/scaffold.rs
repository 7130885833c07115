//! The build-time scaffolding model: from a plugin type name and the hook
//! methods its implementation defines, the exact export surface the host
//! demands.
//!
//! A method name that matches no callback kind is a build-time error naming
//! the offending method, so a typo cannot silently produce a dead hook.
//! Regardless of what the user implemented, a plugin always materializes
//! the two version-marker exports and the lifecycle export, and the two
//! lifecycle hooks are unconditionally exported; every other hook export
//! exists exactly when its method is implemented.

use convert_case::Casing;
use vstd::prelude::*;
use vstd::string::StringExecFns;

use crate::hook::{spec_export_name, spec_kind_from_method, HookKind};

verus! {

/// What convert_case yields for a type name in snake case: the result
/// depends on the characters alone.
pub uninterp spec fn snake_of(name: Seq<char>) -> Seq<char>;

/// Relies on convert_case's `Casing::to_case` with the snake case.
#[verifier::external_body]
fn to_snake_case(name: &str) -> (r: String)
    ensures
        r@ == snake_of(name@),
{
    name.to_case(convert_case::Case::Snake)
}

/// What std's `str::to_uppercase` yields: the result depends on the
/// characters alone.
pub uninterp spec fn upper_of(name: Seq<char>) -> Seq<char>;

/// Relies on std's `str::to_uppercase`.
#[verifier::external_body]
fn to_upper_case(name: &str) -> (r: String)
    ensures
        r@ == upper_of(name@),
{
    name.to_uppercase()
}

/// The generated `main` function's symbol for a plugin type: two leading
/// underscores, then the type name in snake case.
pub fn main_symbol(plugin_type: &str) -> (symbol: String)
    ensures
        symbol@ == "__"@ + snake_of(plugin_type@),
{
    let mut symbol = String::from_str("__");
    let snake = to_snake_case(plugin_type);
    symbol.append(snake.as_str());
    symbol
}

/// The generated trait-assertion function's symbol for a plugin type: the
/// function whose bounds fail the build when the type does not implement
/// the plugin protocol.
pub fn assertion_symbol(plugin_type: &str) -> (symbol: String)
    ensures
        symbol@ == "__assert_"@ + snake_of(plugin_type@) + "_implements_traits"@,
{
    let mut symbol = String::from_str("__assert_");
    let snake = to_snake_case(plugin_type);
    symbol.append(snake.as_str());
    symbol.append("_implements_traits");
    symbol
}

/// The singleton holder's symbol for a plugin type: two leading
/// underscores, then the type name uppercased, a case-normalized unique
/// name for the one process-wide slot.
pub fn holder_symbol(plugin_type: &str) -> (symbol: String)
    ensures
        symbol@ == "__"@ + upper_of(plugin_type@),
{
    let mut symbol = String::from_str("__");
    let upper = to_upper_case(plugin_type);
    symbol.append(upper.as_str());
    symbol
}

/// A build-time configuration error: the offending symbol and the message
/// the build stops with.
#[derive(Clone, Debug)]
pub struct ScaffoldError {
    /// The method name that matched no callback kind.
    pub method: String,
    /// The build error message.
    pub message: String,
}

/// Map the hook methods a plugin implementation defines to their callback
/// kinds, in order. Succeeds exactly when every name is in the fixed
/// table; otherwise the build fails with an error naming the first method
/// that matches no kind.
pub fn resolve_hooks(methods: &Vec<String>) -> (r: Result<Vec<HookKind>, ScaffoldError>)
    ensures
        r is Ok <==> (forall|i: int|
            0 <= i < methods.deep_view().len() ==> spec_kind_from_method(
                methods.deep_view()[i],
            ) is Some),
        r matches Ok(kinds) ==> kinds@.len() == methods.deep_view().len() && (forall|i: int|
            0 <= i < kinds@.len() ==> Some(kinds@[i]) == spec_kind_from_method(
                methods.deep_view()[i],
            )),
        r matches Err(err) ==> err.message@ == "the hook must be a supported MacroQuest hook"@
            && exists|j: int|
            0 <= j < methods.deep_view().len() && spec_kind_from_method(methods.deep_view()[j])
                is None && err.method@ == methods.deep_view()[j] && (forall|i: int|
                0 <= i < j ==> spec_kind_from_method(methods.deep_view()[i]) is Some),
{
    let mut kinds: Vec<HookKind> = Vec::new();
    let n = methods.len();
    let mut i: usize = 0;
    while i < n
        invariant
            n == methods.deep_view().len(),
            i <= n,
            kinds@.len() == i,
            forall|m: int|
                0 <= m < i ==> spec_kind_from_method(methods.deep_view()[m]) is Some && Some(
                    kinds@[m],
                ) == spec_kind_from_method(methods.deep_view()[m]),
        decreases n - i,
    {
        let name = &methods[i];
        match crate::hook::kind_from_method_name(name.as_str()) {
            Some(kind) => {
                kinds.push(kind);
            },
            None => {
                let err = ScaffoldError {
                    method: name.clone(),
                    message: "the hook must be a supported MacroQuest hook".to_owned(),
                };
                proof {
                    assert(spec_kind_from_method(methods.deep_view()[i as int]) is None);
                }
                return Err(err);
            },
        }
        i += 1;
    }
    Ok(kinds)
}

/// Whether a callback kind is one of the two lifecycle hooks, which are
/// exported unconditionally.
pub open spec fn spec_lifecycle_kind(kind: HookKind) -> bool {
    kind == HookKind::InitializePlugin || kind == HookKind::ShutdownPlugin
}

/// The hook exports generated for a list of implemented kinds: one export
/// per kind, in order, except the two lifecycle hooks, which the surface
/// already holds unconditionally.
pub open spec fn spec_hook_exports(implemented: Seq<HookKind>) -> Seq<Seq<char>>
    decreases implemented.len(),
{
    if implemented.len() == 0 {
        Seq::<Seq<char>>::empty()
    } else {
        let head = if spec_lifecycle_kind(implemented[0]) {
            Seq::<Seq<char>>::empty()
        } else {
            seq![spec_export_name(implemented[0])]
        };
        head + spec_hook_exports(implemented.drop_first())
    }
}

/// Appending one kind appends its contribution.
proof fn lemma_hook_exports_snoc(implemented: Seq<HookKind>, kind: HookKind)
    ensures
        spec_hook_exports(implemented.push(kind)) =~= spec_hook_exports(implemented) + (
        if spec_lifecycle_kind(kind) {
            Seq::<Seq<char>>::empty()
        } else {
            seq![spec_export_name(kind)]
        }),
    decreases implemented.len(),
{
    let appended = implemented.push(kind);
    if implemented.len() == 0 {
        assert(appended[0] == kind);
        assert(appended.drop_first() =~= Seq::<HookKind>::empty());
        assert(spec_hook_exports(appended.drop_first()) =~~= Seq::<Seq<char>>::empty());
        assert(spec_hook_exports(appended) =~~= spec_hook_exports(implemented) + (
        if spec_lifecycle_kind(kind) {
            Seq::<Seq<char>>::empty()
        } else {
            seq![spec_export_name(kind)]
        }));
    } else {
        assert(appended[0] == implemented[0]);
        assert(appended.drop_first() =~= implemented.drop_first().push(kind));
        lemma_hook_exports_snoc(implemented.drop_first(), kind);
        assert(spec_hook_exports(appended) =~~= spec_hook_exports(implemented) + (
        if spec_lifecycle_kind(kind) {
            Seq::<Seq<char>>::empty()
        } else {
            seq![spec_export_name(kind)]
        }));
    }
}

/// The generated hook exports come from the fixed table and from nothing
/// else: for every list of implemented kinds, the generated names are
/// exactly the table's export names of the non-lifecycle kinds, in order.
pub proof fn lemma_hook_exports_match_table(implemented: Seq<HookKind>)
    ensures
        spec_hook_exports(implemented) =~= implemented.filter(
            |kind: HookKind| !spec_lifecycle_kind(kind),
        ).map_values(|kind: HookKind| spec_export_name(kind)),
    decreases implemented.len(),
{
    reveal(Seq::filter);
    let pred = |kind: HookKind| !spec_lifecycle_kind(kind);
    let name_of = |kind: HookKind| spec_export_name(kind);
    if implemented.len() == 0 {
        assert(implemented.filter(pred) == implemented);
    } else {
        let rest = implemented.drop_last();
        let kind = implemented.last();
        lemma_hook_exports_match_table(rest);
        assert(implemented =~= rest.push(kind));
        lemma_hook_exports_snoc(rest, kind);
        if pred(kind) {
            assert(implemented.filter(pred) == rest.filter(pred).push(kind));
            assert(rest.filter(pred).push(kind).map_values(name_of) =~= rest.filter(
                pred,
            ).map_values(name_of).push(name_of(kind)));
            assert(spec_hook_exports(rest) + seq![spec_export_name(kind)] =~= spec_hook_exports(
                rest,
            ).push(name_of(kind)));
        } else {
            assert(implemented.filter(pred) == rest.filter(pred));
            assert(spec_hook_exports(implemented) =~= spec_hook_exports(rest));
        }
    }
}

/// The complete export table generated for a plugin: the two version
/// markers and the lifecycle export, the two unconditional lifecycle
/// hooks, and one export per implemented hook kind.
pub open spec fn spec_export_surface(implemented: Seq<HookKind>) -> Seq<Seq<char>> {
    seq![
        "IsBuiltForNext"@,
        "EverQuestVersion"@,
        "DllMain"@,
        "InitializePlugin"@,
        "ShutdownPlugin"@,
    ] + spec_hook_exports(implemented)
}

/// Generate the export table for a plugin that implements the given hook
/// kinds.
pub fn export_surface(implemented: &Vec<HookKind>) -> (surface: Vec<String>)
    ensures
        surface.deep_view() == spec_export_surface(implemented@),
{
    let mut surface: Vec<String> = Vec::new();
    surface.push(String::from_str("IsBuiltForNext"));
    surface.push(String::from_str("EverQuestVersion"));
    surface.push(String::from_str("DllMain"));
    surface.push(String::from_str("InitializePlugin"));
    surface.push(String::from_str("ShutdownPlugin"));
    proof {
        assert(implemented@.subrange(0, 0) =~= Seq::<HookKind>::empty());
        assert(surface.deep_view() =~~= spec_export_surface(implemented@.subrange(0, 0)));
    }
    let n = implemented.len();
    let mut i: usize = 0;
    while i < n
        invariant
            n == implemented@.len(),
            i <= n,
            surface.deep_view() == spec_export_surface(implemented@.subrange(0, i as int)),
        decreases n - i,
    {
        let kind = implemented[i];
        let ghost prefix = implemented@.subrange(0, i as int);
        let ghost before = surface.deep_view();
        proof {
            assert(implemented@.subrange(0, i + 1) =~= prefix.push(implemented@[i as int]));
            lemma_hook_exports_snoc(prefix, implemented@[i as int]);
        }
        if !(kind == HookKind::InitializePlugin || kind == HookKind::ShutdownPlugin) {
            let name = crate::hook::export_name(kind).to_owned();
            surface.push(name);
            proof {
                assert(surface.deep_view() =~~= before.push(spec_export_name(
                    implemented@[i as int],
                )));
                assert(surface.deep_view() =~~= spec_export_surface(
                    implemented@.subrange(0, i + 1),
                ));
            }
        } else {
            proof {
                assert(surface.deep_view() =~~= spec_export_surface(
                    implemented@.subrange(0, i + 1),
                ));
            }
        }
        i += 1;
    }
    proof {
        assert(implemented@.subrange(0, n as int) =~= implemented@);
    }
    surface
}

} // verus!
