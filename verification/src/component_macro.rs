//! The source text that the `kinesis_component` attribute expands to.
use crate::text::{debug_text, debug_text_of};
use vstd::prelude::*;
use vstd::string::StringExecFns;

verus! {

/// The WIT world that a component implements.
pub const WORLD: &'static str = "spin-kinesis";

/// Where the WIT file lies, from the directory of the attribute's own manifest.
pub const WIT_FILE: &'static str = "/../../kinesis.wit";

pub const PREAMBLE_TO_WORLD: &'static str = "#![allow(missing_docs)]
::spin_kinesis_sdk::wit_bindgen::generate!({
    world: ";

pub const PREAMBLE_TO_PATH: &'static str = ",
    path: ";

pub const PREAMBLE_REST: &'static str = ",
    runtime_path: \"::spin_kinesis_sdk::wit_bindgen::rt\",
    exports: {
        world: Kinesis
    },
    with: {
        \"fermyon:spin-kinesis/kinesis-types@2.0.0\": ::spin_kinesis_sdk,
    }
});
pub struct Kinesis;
";

pub const COMPONENT_TO_PREAMBLE: &'static str = "
mod __spin_kinesis {
    mod preamble {
";

pub const COMPONENT_TO_NAME: &'static str = "
    }

    impl self::preamble::Guest for preamble::Kinesis {
        fn handle_batch_records(records: ::std::vec::Vec<::spin_kinesis_sdk::KinesisRecord>) -> ::std::result::Result<(), ::spin_kinesis_sdk::Error> {
            ::spin_kinesis_sdk::executor::run(async move {
                match super::";

pub const COMPONENT_CALL: &'static str = "(records)";

pub const COMPONENT_AWAIT: &'static str = ".await";

pub const COMPONENT_REST: &'static str = " {
                    ::std::result::Result::Ok(()) => ::std::result::Result::Ok(()),
                    ::std::result::Result::Err(e) => {
                        eprintln!(\"{}\", e);
                        ::std::result::Result::Err(::spin_kinesis_sdk::Error::Other(e.to_string()))
                    },
                }
            })
        }
    }
}
";

pub const REFUSAL_START: &'static str = "::core::compile_error! { ";

pub const REFUSAL_END: &'static str = " }";

/// What was found in an attributed item, with texts as sequences: the name of a
/// function and whether it is `async`, or the message about an item that is none.
pub open spec fn function_view(function: Result<(String, bool), String>) -> Result<
    (Seq<char>, bool),
    Seq<char>,
> {
    match function {
        Ok(found) => Ok((found.0@, found.1)),
        Err(message) => Err(message@),
    }
}

/// Whether a parse of the item's text may find this in it.
pub uninterp spec fn may_be_found_in(
    item: Seq<char>,
    function: Result<(Seq<char>, bool), Seq<char>>,
) -> bool;

/// Calls `syn::parse_str::<syn::ItemFn>` on the text of an item. Claims only
/// that what it finds is something that a parse of this text may find, and not
/// that every parse of the text finds the same: the lexer is the compiler's
/// inside a procedural macro, where it goes by the edition of the caller, and
/// the one of `proc_macro2` elsewhere.
#[verifier::external_body]
fn parse_function(item: &str) -> (function: Result<(String, bool), String>)
    ensures
        may_be_found_in(item@, function_view(function)),
{
    match syn::parse_str::<syn::ItemFn>(item) {
        Ok(func) => Ok((func.sig.ident.to_string(), func.sig.asyncness.is_some())),
        Err(error) => Err(error.to_string()),
    }
}

/// The module content that generates the component's bindings, given the
/// literals of the world and of the path of the WIT file.
pub open spec fn preamble_text(world_literal: Seq<char>, path_literal: Seq<char>) -> Seq<char> {
    PREAMBLE_TO_WORLD@ + world_literal + PREAMBLE_TO_PATH@ + path_literal + PREAMBLE_REST@
}

/// The item itself, and after it the module that makes it the handler of the
/// component. An `async` function is awaited.
pub open spec fn component_text(
    item: Seq<char>,
    name: Seq<char>,
    is_async: bool,
    preamble: Seq<char>,
) -> Seq<char> {
    let postfix = if is_async {
        COMPONENT_AWAIT@
    } else {
        Seq::<char>::empty()
    };
    item + COMPONENT_TO_PREAMBLE@ + preamble + COMPONENT_TO_NAME@ + name + COMPONENT_CALL@ + postfix
        + COMPONENT_REST@
}

/// The compiler error for an item that is no function, given the literal of
/// the message.
pub open spec fn refusal_text(message_literal: Seq<char>) -> Seq<char> {
    REFUSAL_START@ + message_literal + REFUSAL_END@
}

/// The expansion of the attribute on an item.
pub open spec fn expansion(
    item: Seq<char>,
    function: Result<(Seq<char>, bool), Seq<char>>,
    manifest_dir: Seq<char>,
) -> Seq<char> {
    match function {
        Ok((name, is_async)) => component_text(
            item,
            name,
            is_async,
            preamble_text(debug_text_of(WORLD@), debug_text_of(manifest_dir + WIT_FILE@)),
        ),
        Err(message) => refusal_text(debug_text_of(message)),
    }
}

/// Makes the module content that generates the component's bindings.
pub fn preamble_with(world_literal: &str, path_literal: &str) -> (text: String)
    ensures
        text@ == preamble_text(world_literal@, path_literal@),
{
    let mut text: String = PREAMBLE_TO_WORLD.to_owned();
    text.append(world_literal);
    text.append(PREAMBLE_TO_PATH);
    text.append(path_literal);
    text.append(PREAMBLE_REST);
    text
}

/// Makes the module content that generates the bindings from the WIT file of
/// the given manifest directory.
pub fn preamble(manifest_dir: &str) -> (text: String)
    ensures
        text@ == preamble_text(debug_text_of(WORLD@), debug_text_of(manifest_dir@ + WIT_FILE@)),
{
    let mut wit_path: String = manifest_dir.to_owned();
    wit_path.append(WIT_FILE);
    preamble_with(debug_text(WORLD).as_str(), debug_text(wit_path.as_str()).as_str())
}

/// Makes the text of a component out of its handler.
pub fn component_with(item: &str, name: &str, is_async: bool, preamble: &str) -> (text: String)
    ensures
        text@ == component_text(item@, name@, is_async, preamble@),
{
    let mut text: String = item.to_owned();
    text.append(COMPONENT_TO_PREAMBLE);
    text.append(preamble);
    text.append(COMPONENT_TO_NAME);
    text.append(name);
    text.append(COMPONENT_CALL);
    if is_async {
        text.append(COMPONENT_AWAIT);
    }
    let ghost called = text@;
    text.append(COMPONENT_REST);
    proof {
        assert(!is_async ==> called + Seq::<char>::empty() =~= called);
    }
    text
}

/// Makes the compiler error for an item that is no function.
pub fn refusal_with(message_literal: &str) -> (text: String)
    ensures
        text@ == refusal_text(message_literal@),
{
    let mut text: String = REFUSAL_START.to_owned();
    text.append(message_literal);
    text.append(REFUSAL_END);
    text
}

/// Expands the attribute on an item, given what was found in it.
pub fn expand(
    item: &str,
    function: Result<(String, bool), String>,
    manifest_dir: &str,
) -> (text: String)
    ensures
        text@ == expansion(item@, function_view(function), manifest_dir@),
{
    match function {
        Ok((name, is_async)) => {
            let preamble = preamble(manifest_dir);
            component_with(item, name.as_str(), is_async, preamble.as_str())
        },
        Err(message) => refusal_with(debug_text(message.as_str()).as_str()),
    }
}

/// Expands the attribute on an item: the text is the expansion for something
/// that a parse of the item may find in it, whatever the attribute's arguments.
pub fn kinesis_component(_attr: &str, item: &str, manifest_dir: &str) -> (text: String)
    ensures
        exists|function: Result<(Seq<char>, bool), Seq<char>>|
            may_be_found_in(item@, function) && text@ == #[trigger] expansion(
                item@,
                function,
                manifest_dir@,
            ),
{
    let function = parse_function(item);
    let ghost found = function_view(function);
    let text = expand(item, function, manifest_dir);
    assert(text@ == expansion(item@, found, manifest_dir@));
    text
}

/// Whatever function is found in an item, the attribute leaves the item as it
/// is and puts one module after it.
pub proof fn law_item_is_kept(
    item: Seq<char>,
    name: Seq<char>,
    is_async: bool,
    manifest_dir: Seq<char>,
)
    ensures
        ({
            let text = expansion(item, Ok((name, is_async)), manifest_dir);
            &&& item.is_prefix_of(text)
            &&& COMPONENT_TO_PREAMBLE@.is_prefix_of(text.skip(item.len() as int))
            &&& COMPONENT_REST@.is_suffix_of(text.skip(item.len() as int))
        }),
{
    let text = expansion(item, Ok((name, is_async)), manifest_dir);
    let module = text.skip(item.len() as int);
    assert(text.take(item.len() as int) =~= item);
    assert(module.take(COMPONENT_TO_PREAMBLE@.len() as int) =~= COMPONENT_TO_PREAMBLE@);
    assert(module.skip(module.len() - COMPONENT_REST@.len()) =~= COMPONENT_REST@);
}

/// The module that follows an item holds the bindings and then a handler that
/// calls the very function that was found in the item, with the records, and
/// awaits it exactly where it is `async`.
pub proof fn law_handler_calls_the_function(
    item: Seq<char>,
    name: Seq<char>,
    is_async: bool,
    manifest_dir: Seq<char>,
)
    ensures
        ({
            let bindings = PREAMBLE_TO_WORLD@ + debug_text_of("spin-kinesis"@) + PREAMBLE_TO_PATH@
                + debug_text_of(manifest_dir + "/../../kinesis.wit"@) + PREAMBLE_REST@;
            let call = name + "(records)"@ + if is_async {
                ".await"@
            } else {
                Seq::<char>::empty()
            };
            expansion(item, Ok((name, is_async)), manifest_dir) == item + COMPONENT_TO_PREAMBLE@
                + bindings + COMPONENT_TO_NAME@ + call + COMPONENT_REST@
        }),
{
    let bindings = PREAMBLE_TO_WORLD@ + debug_text_of("spin-kinesis"@) + PREAMBLE_TO_PATH@
        + debug_text_of(manifest_dir + "/../../kinesis.wit"@) + PREAMBLE_REST@;
    let call = name + "(records)"@ + if is_async {
        ".await"@
    } else {
        Seq::<char>::empty()
    };
    assert(expansion(item, Ok((name, is_async)), manifest_dir) =~= item + COMPONENT_TO_PREAMBLE@
        + bindings + COMPONENT_TO_NAME@ + call + COMPONENT_REST@);
}

/// The texts around the item, the bindings and the name enter a component as they
/// are, so two handlers on one item that differ in their name alone differ in
/// their expansion.
pub proof fn law_component_holds_its_parts(
    item: Seq<char>,
    name: Seq<char>,
    other: Seq<char>,
    is_async: bool,
    preamble: Seq<char>,
)
    ensures
        ({
            let call = name + "(records)"@ + if is_async {
                ".await"@
            } else {
                Seq::<char>::empty()
            };
            component_text(item, name, is_async, preamble) == item + COMPONENT_TO_PREAMBLE@
                + preamble + COMPONENT_TO_NAME@ + call + COMPONENT_REST@
        }),
        component_text(item, name, is_async, preamble) == component_text(
            item,
            other,
            is_async,
            preamble,
        ) ==> name == other,
{
    let before = item + COMPONENT_TO_PREAMBLE@ + preamble + COMPONENT_TO_NAME@;
    let after = "(records)"@ + if is_async {
        ".await"@
    } else {
        Seq::<char>::empty()
    } + COMPONENT_REST@;
    let text = component_text(item, name, is_async, preamble);
    let other_text = component_text(item, other, is_async, preamble);
    assert(text =~= before + name + after);
    assert(other_text =~= before + other + after);
    assert(name =~= text.subrange(before.len() as int, text.len() - after.len()));
    assert(other =~= other_text.subrange(before.len() as int, other_text.len() - after.len()));
    let call = name + "(records)"@ + if is_async {
        ".await"@
    } else {
        Seq::<char>::empty()
    };
    assert(text =~= item + COMPONENT_TO_PREAMBLE@ + preamble + COMPONENT_TO_NAME@ + call
        + COMPONENT_REST@);
}

/// The bindings are generated for the given world from the given file.
pub proof fn law_preamble_holds_its_literals(world_literal: Seq<char>, path_literal: Seq<char>)
    ensures
        preamble_text(world_literal, path_literal) == PREAMBLE_TO_WORLD@ + world_literal
            + PREAMBLE_TO_PATH@ + path_literal + PREAMBLE_REST@,
{
}

/// An item that is no function expands to a compiler error that shows the message
/// about it, and to nothing else.
pub proof fn law_refusal_shows_the_message(
    item: Seq<char>,
    message: Seq<char>,
    manifest_dir: Seq<char>,
)
    ensures
        expansion(item, Err(message), manifest_dir) == "::core::compile_error! { "@
            + debug_text_of(message) + " }"@,
        refusal_text(message) == "::core::compile_error! { "@ + message + " }"@,
{
}

} // verus!
