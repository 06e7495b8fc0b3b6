use android_xdl::error::Error;
use android_xdl::resolve::{LogEvent, Step};
use android_xdl::schema::{
    BareFn, Data, DeclaredType, Expr, FieldDecl, GenericArgument, Meta, MetaValue, PathArguments,
    PathSegment, Schema,
};
use android_xdl::wrapper::{expand_derive, SymbolLoad};

fn function() -> DeclaredType {
    DeclaredType::BareFn(BareFn { is_unsafe: false, inputs: vec![], output: None, variadic: false })
}

fn optional_function() -> DeclaredType {
    DeclaredType::Path(vec![PathSegment {
        ident: "Option".to_string(),
        arguments: PathArguments::AngleBracketed(vec![GenericArgument::Type(function())]),
    }])
}

fn load(ty: DeclaredType, symbols: &[&str], logger: bool) -> SymbolLoad {
    let elems = symbols
        .iter()
        .map(|name| Expr::Str { value: name.to_string(), suffix: String::new() })
        .collect();
    let mut items = vec![Meta {
        path: "symbol".to_string(),
        value: MetaValue::Assign(Expr::Array(elems)),
    }];
    if logger {
        items.push(Meta { path: "logger".to_string(), value: MetaValue::Flag });
    }
    let ast = Schema {
        ident: "Api".to_string(),
        attrs: vec![],
        data: Data::Named(vec![FieldDecl {
            ident: "field".to_string(),
            ty,
            ty_text: "fn()".to_string(),
            attrs: vec![Meta { path: "native".to_string(), value: MetaValue::List(items) }],
        }]),
    };
    expand_derive(&ast).unwrap().loads.remove(0)
}

/// Runs a search against a table of exported symbols and records the lookups made.
fn run(load: &SymbolLoad, exported: &[(&str, usize)]) -> (Step, Vec<String>) {
    let mut tried = Vec::new();
    let mut step = load.start();
    while let Step::Lookup { index } = step {
        assert!(index < load.plan.len());
        let name = String::from_utf8(load.plan.candidate(index).name.clone()).unwrap();
        let found = exported.iter().find(|(symbol, _)| *symbol == name).map(|(_, addr)| *addr);
        tried.push(name);
        step = load.next(index, found);
    }
    (step, tried)
}

#[test]
fn the_first_candidate_found_ends_the_search() {
    let load = load(function(), &["a", "b", "c"], false);
    let (step, tried) = run(&load, &[("b", 0x2000), ("c", 0x3000)]);
    assert_eq!(step, Step::Resolved { index: 1, address: 0x2000 });
    assert_eq!(tried, vec!["a", "b"]);
}

#[test]
fn the_most_preferred_candidate_wins() {
    let load = load(function(), &["a", "b", "c"], false);
    let (step, tried) = run(&load, &[("c", 0x3000), ("a", 0x1000)]);
    assert_eq!(step, Step::Resolved { index: 0, address: 0x1000 });
    assert_eq!(tried, vec!["a"]);
}

#[test]
fn the_last_candidate_is_tried_when_the_others_fail() {
    let load = load(function(), &["a", "b", "c"], false);
    let (step, tried) = run(&load, &[("c", 0x3000)]);
    assert_eq!(step, Step::Resolved { index: 2, address: 0x3000 });
    assert_eq!(tried, vec!["a", "b", "c"]);
}

#[test]
fn an_optional_field_without_a_symbol_stays_empty() {
    let load = load(optional_function(), &["a", "b"], false);
    let (step, tried) = run(&load, &[]);
    assert_eq!(step, Step::Absent);
    assert_eq!(tried, vec!["a", "b"]);
}

#[test]
fn a_required_field_without_a_symbol_fails_at_the_last_candidate() {
    let load = load(function(), &["a", "b"], false);
    let (step, tried) = run(&load, &[]);
    assert_eq!(step, Step::Exhausted { index: 1 });
    assert_eq!(tried, vec!["a", "b"]);
    let failure = load.exhausted(1);
    assert_eq!(failure.field, "field");
    assert_eq!(failure.symbol, "b");
    let error = failure.into_error();
    assert_eq!(error, Error::SymbolNotFound("b".to_string()));
    assert_eq!(error.message(), "Symbol `b` not found");
}

#[test]
fn a_search_ends_in_what_the_field_is_loaded_with() {
    let required = load(function(), &["a", "b"], false);
    assert_eq!(required.finish(Step::Resolved { index: 1, address: 0x20 }), Ok(Some(0x20)));
    let failure = required.finish(Step::Exhausted { index: 1 }).unwrap_err();
    assert_eq!(failure.field, "field");
    assert_eq!(failure.symbol, "b");
    let optional = load(optional_function(), &["a"], false);
    let (step, _) = run(&optional, &[]);
    let loaded = optional.finish(step).unwrap();
    assert_eq!(loaded, None);
    assert!(!loaded.is_some());
    assert_eq!(Step::Absent.address(), None);
    assert_eq!(Step::Exhausted { index: 0 }.address(), None);
    assert_eq!(Step::Lookup { index: 0 }.address(), None);
    assert_eq!(Step::Resolved { index: 0, address: 5 }.address(), Some(5));
}

#[test]
fn the_steps_follow_the_answers() {
    let required = load(function(), &["a", "b"], false);
    assert_eq!(required.start(), Step::Lookup { index: 0 });
    assert_eq!(required.next(0, None), Step::Lookup { index: 1 });
    assert_eq!(required.next(0, Some(7)), Step::Resolved { index: 0, address: 7 });
    assert_eq!(required.next(1, Some(9)), Step::Resolved { index: 1, address: 9 });
    assert_eq!(required.next(1, None), Step::Exhausted { index: 1 });
    let optional = load(optional_function(), &["a"], false);
    assert_eq!(optional.next(0, None), Step::Absent);
    assert_eq!(optional.next(0, Some(7)), Step::Resolved { index: 0, address: 7 });
}

#[test]
fn a_logged_field_records_each_lookup() {
    let logged = load(function(), &["a", "b"], true);
    assert_eq!(
        logged.log_event(0, None),
        Some(LogEvent::Warn { message: "Symbol `a` not found".to_string() })
    );
    assert_eq!(
        logged.log_event(1, Some(0x40)),
        Some(LogEvent::Trace { symbol: "b".to_string(), address: 0x40 })
    );
    assert_eq!(
        logged.log_event_as("shown", None),
        Some(LogEvent::Warn { message: "Symbol `shown` not found".to_string() })
    );
}

#[test]
fn a_field_that_is_not_logged_records_nothing() {
    let silent = load(function(), &["a"], false);
    assert_eq!(silent.log_event(0, None), None);
    assert_eq!(silent.log_event(0, Some(0x40)), None);
}

#[test]
fn bytes_that_are_no_text_are_shown_with_the_replacement_character() {
    let ast = Schema {
        ident: "Api".to_string(),
        attrs: vec![],
        data: Data::Named(vec![FieldDecl {
            ident: "raw".to_string(),
            ty: function(),
            ty_text: "fn()".to_string(),
            attrs: vec![Meta {
                path: "native".to_string(),
                value: MetaValue::List(vec![Meta {
                    path: "symbol".to_string(),
                    value: MetaValue::Assign(Expr::CStr {
                        bytes: vec![b'a', 0xff, b'b'],
                        suffix: String::new(),
                    }),
                }]),
            }],
        }]),
    };
    let load = expand_derive(&ast).unwrap().loads.remove(0);
    let failure = load.exhausted(0);
    assert_eq!(failure.field, "raw");
    assert_eq!(failure.symbol, "a\u{fffd}b");
    assert_eq!(load.exhausted_as("x").symbol, "x");
}
