use trigger_kinesis::component_macro::{
    component_with, expand, kinesis_component, preamble, preamble_with, refusal_with,
};

const HANDLER: &str = "fn handle(records: Vec<KinesisRecord>) -> Result<(), Error> { Ok(()) }";

#[test]
fn handler_becomes_a_component() {
    let text = kinesis_component("", HANDLER, "/sdk/macro");
    let file = syn::parse_str::<syn::File>(&text).unwrap();
    assert_eq!(file.items.len(), 2);
    assert!(matches!(&file.items[0], syn::Item::Fn(func) if func.sig.ident == "handle"));
    assert!(matches!(&file.items[1], syn::Item::Mod(module) if module.ident == "__spin_kinesis"));
    assert!(text.starts_with(HANDLER));
    assert!(text.contains("match super::handle(records) {"));
    assert!(text.contains("path: \"/sdk/macro/../../kinesis.wit\""));
}

#[test]
fn async_handler_is_awaited() {
    let item = format!("async {}", HANDLER);
    let text = kinesis_component("ignored", &item, "/sdk/macro");
    assert!(syn::parse_str::<syn::File>(&text).is_ok());
    assert!(text.contains("match super::handle(records).await {"));
}

#[test]
fn item_that_is_no_function_is_refused() {
    let text = kinesis_component("", "struct Handler;", "/sdk/macro");
    assert!(text.starts_with("::core::compile_error! { \"expected"));
    assert!(text.ends_with(" }"));
    let parsed = syn::parse_str::<syn::ItemMacro>(&text).unwrap();
    assert!(parsed.mac.path.segments.last().unwrap().ident == "compile_error");
}

#[test]
fn trailing_comment_does_not_swallow_the_module() {
    let item = format!("{} // done", HANDLER);
    let text = kinesis_component("", &item, "/sdk/macro");
    assert_eq!(syn::parse_str::<syn::File>(&text).unwrap().items.len(), 2);
}

#[test]
fn preamble_names_world_and_path() {
    let text = preamble("C:\\sdk");
    assert_eq!(
        text,
        preamble_with("\"spin-kinesis\"", "\"C:\\\\sdk/../../kinesis.wit\"")
    );
    assert_eq!(
        text,
        "#![allow(missing_docs)]
::spin_kinesis_sdk::wit_bindgen::generate!({
    world: \"spin-kinesis\",
    path: \"C:\\\\sdk/../../kinesis.wit\",
    runtime_path: \"::spin_kinesis_sdk::wit_bindgen::rt\",
    exports: {
        world: Kinesis
    },
    with: {
        \"fermyon:spin-kinesis/kinesis-types@2.0.0\": ::spin_kinesis_sdk,
    }
});
pub struct Kinesis;
"
    );
}

#[test]
fn component_text_is_exact() {
    assert_eq!(
        component_with("ITEM", "name", true, "PREAMBLE"),
        "ITEM
mod __spin_kinesis {
    mod preamble {
PREAMBLE
    }

    impl self::preamble::Guest for preamble::Kinesis {
        fn handle_batch_records(records: ::std::vec::Vec<::spin_kinesis_sdk::KinesisRecord>) -> ::std::result::Result<(), ::spin_kinesis_sdk::Error> {
            ::spin_kinesis_sdk::executor::run(async move {
                match super::name(records).await {
                    ::std::result::Result::Ok(()) => ::std::result::Result::Ok(()),
                    ::std::result::Result::Err(e) => {
                        eprintln!(\"{}\", e);
                        ::std::result::Result::Err(::spin_kinesis_sdk::Error::Other(e.to_string()))
                    },
                }
            })
        }
    }
}
"
    );
    assert!(!component_with("ITEM", "name", false, "PREAMBLE").contains(".await"));
}

#[test]
fn expansion_goes_by_what_was_found() {
    let found = || Ok(("handle".to_string(), true));
    assert_eq!(
        expand("ITEM", found(), "/sdk"),
        component_with("ITEM", "handle", true, &preamble("/sdk"))
    );
    assert_eq!(
        expand("ITEM", Err("no \"fn\"".to_string()), "/sdk"),
        "::core::compile_error! { \"no \\\"fn\\\"\" }"
    );
    assert_eq!(
        kinesis_component("", HANDLER, "/sdk"),
        expand(HANDLER, Ok(("handle".to_string(), false)), "/sdk")
    );
    assert_eq!(
        kinesis_component("one", HANDLER, "/sdk"),
        kinesis_component("two", HANDLER, "/sdk")
    );
}

#[test]
fn refusal_frames_the_message() {
    assert_eq!(refusal_with("\"no\""), "::core::compile_error! { \"no\" }");
}
