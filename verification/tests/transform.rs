use desugar_async::ast::{
    Body, ImplBlock, ImplMember, ImplMethod, InterfaceDecl, Item, ReturnKind, Signature,
    TraitAssocType, TraitMember, TraitMethod, TypeAlias, TypeExpr,
};
use desugar_async::expand::expand;
use desugar_async::name::underline2camel;

fn async_sig(name: &str, output: Option<&str>) -> Signature {
    Signature {
        name: name.to_string(),
        generics: Vec::new(),
        is_async: true,
        output: match output {
            None => ReturnKind::Default,
            Some(t) => ReturnKind::Declared(TypeExpr::Tokens(t.to_string())),
        },
    }
}

fn plain_sig(name: &str, output: Option<&str>) -> Signature {
    Signature {
        is_async: false,
        ..async_sig(name, output)
    }
}

#[test]
fn formatter_single_segment() {
    let r = underline2camel(&"get".to_string());
    assert_eq!(r, "FutureReturnTypeGet");
}

#[test]
fn formatter_two_segments() {
    let r = underline2camel(&"fetch_data".to_string());
    assert_eq!(r, "FutureReturnTypeFetchData");
}

#[test]
fn formatter_many_segments_and_digits() {
    assert_eq!(
        underline2camel(&"do_some_work".to_string()),
        "FutureReturnTypeDoSomeWork"
    );
    assert_eq!(
        underline2camel(&"run2_fast".to_string()),
        "FutureReturnTypeRun2Fast"
    );
}

#[test]
fn formatter_keeps_inner_characters() {
    // only the first character of each segment is upper-cased; the rest pass
    // through unchanged
    assert_eq!(underline2camel(&"aB_c".to_string()), "FutureReturnTypeABC");
    assert_eq!(
        underline2camel(&"fetchData".to_string()),
        "FutureReturnTypeFetchData"
    );
}

#[test]
fn formatter_deterministic() {
    let a = underline2camel(&"fetch_data".to_string());
    let b = underline2camel(&"fetch_data".to_string());
    assert_eq!(a, b);
}

#[test]
fn interface_one_async_method() {
    // an interface with one non-default asynchronous method
    // `fetch(&self) -> u32`
    let mut item = Item::Trait(InterfaceDecl {
        name: "Fetcher".to_string(),
        members: vec![TraitMember::Method(TraitMethod {
            sig: async_sig("fetch", Some("u32")),
            default: None,
        })],
    });
    let aliases = expand(&mut item);
    assert!(aliases.is_empty());
    let decl = match item {
        Item::Trait(decl) => decl,
        Item::Impl(_) => panic!("kind changed"),
    };
    assert_eq!(decl.name, "Fetcher");
    assert_eq!(decl.members.len(), 2);
    // the method: marker cleared, one lifetime parameter added, return type
    // now names the implementer's binding of the generated associated type
    assert_eq!(
        decl.members[0],
        TraitMember::Method(TraitMethod {
            sig: Signature {
                name: "fetch".to_string(),
                generics: vec!["'async_trait".to_string()],
                is_async: false,
                output: ReturnKind::Declared(TypeExpr::SelfAssoc(
                    "FutureReturnTypeFetch".to_string()
                )),
            },
            default: None,
        })
    );
    // the generated associated type, appended after the method
    assert_eq!(
        decl.members[1],
        TraitMember::AssocType(TraitAssocType {
            name: "FutureReturnTypeFetch".to_string(),
            output: Some(TypeExpr::Tokens("u32".to_string())),
        })
    );
}

#[test]
fn interface_default_method_emits_alias() {
    let mut item = Item::Trait(InterfaceDecl {
        name: "Worker".to_string(),
        members: vec![TraitMember::Method(TraitMethod {
            sig: async_sig("do_work", None),
            default: Some(Body::Source("{ () }".to_string())),
        })],
    });
    let aliases = expand(&mut item);
    // exactly one top-level alias, named after the method and the interface
    assert_eq!(
        aliases,
        vec![TypeAlias {
            name: "FutureReturnTypeDoWorkWorker".to_string(),
            output: None,
        }]
    );
    let decl = match item {
        Item::Trait(decl) => decl,
        Item::Impl(_) => panic!("kind changed"),
    };
    // no associated type appended for the default-bodied method
    assert_eq!(decl.members.len(), 1);
    assert_eq!(
        decl.members[0],
        TraitMember::Method(TraitMethod {
            sig: Signature {
                name: "do_work".to_string(),
                generics: vec!["'async_trait".to_string()],
                is_async: false,
                output: ReturnKind::Declared(TypeExpr::Named(
                    "FutureReturnTypeDoWorkWorker".to_string()
                )),
            },
            default: Some(Body::FutureBlock(Box::new(Body::Source(
                "{ () }".to_string()
            )))),
        })
    );
}

#[test]
fn interface_counts_and_order() {
    // two asynchronous methods without default bodies, one with a default
    // body, one plain method: two associated types appended in declaration
    // order, one alias emitted
    let mut item = Item::Trait(InterfaceDecl {
        name: "Mixed".to_string(),
        members: vec![
            TraitMember::Method(TraitMethod {
                sig: async_sig("first", Some("u8")),
                default: None,
            }),
            TraitMember::Method(TraitMethod {
                sig: plain_sig("plain", Some("bool")),
                default: None,
            }),
            TraitMember::Method(TraitMethod {
                sig: async_sig("with_default", None),
                default: Some(Body::Source("{ 0 }".to_string())),
            }),
            TraitMember::Method(TraitMethod {
                sig: async_sig("second", None),
                default: None,
            }),
        ],
    });
    let aliases = expand(&mut item);
    assert_eq!(aliases.len(), 1);
    assert_eq!(aliases[0].name, "FutureReturnTypeWithDefaultMixed");
    let decl = match item {
        Item::Trait(decl) => decl,
        Item::Impl(_) => panic!("kind changed"),
    };
    assert_eq!(decl.members.len(), 6);
    // the two generated associated types stand after all original members
    assert_eq!(
        decl.members[4],
        TraitMember::AssocType(TraitAssocType {
            name: "FutureReturnTypeFirst".to_string(),
            output: Some(TypeExpr::Tokens("u8".to_string())),
        })
    );
    assert_eq!(
        decl.members[5],
        TraitMember::AssocType(TraitAssocType {
            name: "FutureReturnTypeSecond".to_string(),
            output: None,
        })
    );
    // the plain method is untouched
    assert_eq!(
        decl.members[1],
        TraitMember::Method(TraitMethod {
            sig: plain_sig("plain", Some("bool")),
            default: None,
        })
    );
}

#[test]
fn impl_block_unit_method() {
    // an implementation block with method `run(&self)` and no declared
    // return type
    let mut item = Item::Impl(ImplBlock {
        members: vec![ImplMember::Method(ImplMethod {
            sig: plain_sig("run", None),
            body: Body::Source("{ work() }".to_string()),
        })],
    });
    let aliases = expand(&mut item);
    assert!(aliases.is_empty());
    let block = match item {
        Item::Impl(block) => block,
        Item::Trait(_) => panic!("kind changed"),
    };
    assert_eq!(block.members.len(), 2);
    assert_eq!(
        block.members[0],
        ImplMember::Method(ImplMethod {
            sig: Signature {
                name: "run".to_string(),
                generics: vec!["'async_trait".to_string()],
                is_async: false,
                output: ReturnKind::Declared(TypeExpr::SelfAssoc(
                    "FutureReturnTypeRun".to_string()
                )),
            },
            body: Body::FutureBlock(Box::new(Body::Source("{ work() }".to_string()))),
        })
    );
    assert_eq!(
        block.members[1],
        ImplMember::AssocType(desugar_async::ast::ImplAssocType {
            name: "FutureReturnTypeRun".to_string(),
            output: None,
        })
    );
}

#[test]
fn impl_block_every_method_counts() {
    // every method of an implementation block is processed, asynchronous or
    // not, and every other member passes through untouched
    let mut item = Item::Impl(ImplBlock {
        members: vec![
            ImplMember::Method(ImplMethod {
                sig: async_sig("fetch_data", Some("String")),
                body: Body::Source("{ s }".to_string()),
            }),
            ImplMember::Other("const LIMIT: usize = 4;".to_string()),
            ImplMember::Method(ImplMethod {
                sig: plain_sig("close", None),
                body: Body::Source("{ }".to_string()),
            }),
        ],
    });
    let aliases = expand(&mut item);
    assert!(aliases.is_empty());
    let block = match item {
        Item::Impl(block) => block,
        Item::Trait(_) => panic!("kind changed"),
    };
    // two methods give two generated associated types
    assert_eq!(block.members.len(), 5);
    assert_eq!(
        block.members[1],
        ImplMember::Other("const LIMIT: usize = 4;".to_string())
    );
    match &block.members[3] {
        ImplMember::AssocType(a) => {
            assert_eq!(a.name, "FutureReturnTypeFetchData");
            assert_eq!(a.output, Some(TypeExpr::Tokens("String".to_string())));
        }
        other => panic!("expected an associated type, got {:?}", other),
    }
    match &block.members[4] {
        ImplMember::AssocType(a) => {
            assert_eq!(a.name, "FutureReturnTypeClose");
            assert_eq!(a.output, None);
        }
        other => panic!("expected an associated type, got {:?}", other),
    }
}

#[test]
fn interface_other_members_untouched() {
    let mut item = Item::Trait(InterfaceDecl {
        name: "Quiet".to_string(),
        members: vec![
            TraitMember::Other("const N: usize;".to_string()),
            TraitMember::Method(TraitMethod {
                sig: plain_sig("ready", Some("bool")),
                default: None,
            }),
        ],
    });
    let aliases = expand(&mut item);
    assert!(aliases.is_empty());
    let decl = match item {
        Item::Trait(decl) => decl,
        Item::Impl(_) => panic!("kind changed"),
    };
    assert_eq!(decl.members.len(), 2);
    assert_eq!(
        decl.members[0],
        TraitMember::Other("const N: usize;".to_string())
    );
    assert_eq!(
        decl.members[1],
        TraitMember::Method(TraitMethod {
            sig: plain_sig("ready", Some("bool")),
            default: None,
        })
    );
}
