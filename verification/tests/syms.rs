use rebg::syms::{Symbol, SymbolReference, SymbolTable};

fn table(symbols: Vec<Symbol>, path: &str) -> SymbolTable {
    SymbolTable { symbols, offsets: vec![], binary_path: path.to_string(), fallback: None }
}

fn symbol(name: &str, from: u64, to: u64) -> Symbol {
    Symbol { name: name.to_string(), from, to }
}

#[test]
fn pie() {
    // setup
    let sym1 = Symbol {
        name: "main".to_string(),
        from: 0x0,
        to: 0x200,
    };

    let sym2 = Symbol {
        name: "somevar".to_string(),
        from: 0x800,
        to: 0x800,
    };

    let table = SymbolTable {
        symbols: vec![sym1.clone(), sym2.clone()],
        offsets: vec![],
        binary_path: "/test/file".to_string(),
        fallback: None,
    };

    // do the pie offset
    assert!(table.can_add_offset(0x40_000));
    let pie_table = table.add_offset(0x40_000);

    // this was inside main, but now main is offset by 0x40_000
    assert_eq!(pie_table.lookup(0x100), None);

    // main should now be here
    let sym1_pie = Symbol {
        name: sym1.name,
        from: sym1.from + 0x40_000,
        to: sym1.to + 0x40_000,
    };

    // test boundries
    assert_eq!(pie_table.lookup(0x39_fff), None);
    assert_eq!(
        pie_table.lookup(0x40_000),
        Some(SymbolReference {
            symbol: &sym1_pie,
            offset: 0x000
        })
    );
    assert_eq!(
        pie_table.lookup(0x40_200),
        Some(SymbolReference {
            symbol: &sym1_pie,
            offset: 0x200
        })
    );
    assert_eq!(pie_table.lookup(0x40_201), None);

    // the variable
    assert!(pie_table.lookup(0x40_7ff).is_none());
    assert!(pie_table.lookup(0x40_800).is_some());
    assert!(pie_table.lookup(0x40_801).is_none());
}

#[test]
fn relocation_moves_matches_by_the_base() {
    let t = table(vec![symbol("main", 0, 0x200)], "/bin/a").add_offset(0x40000);
    assert_eq!(t.lookup(0x40000).unwrap().offset, 0);
    assert_eq!(t.lookup(0x40200).unwrap().offset, 0x200);
    assert!(t.lookup(0x3FFFF).is_none());
    assert!(t.lookup(0x40201).is_none());
}

#[test]
fn relocation_beyond_the_address_space_is_detected() {
    let t = table(vec![symbol("top", 0x10, u64::MAX - 5)], "/bin/a");
    assert!(t.can_add_offset(5));
    assert!(!t.can_add_offset(6));
}

#[test]
fn first_matching_symbol_wins() {
    let t = table(vec![symbol("outer", 0, 100), symbol("inner", 10, 20)], "/bin/a");
    let found = t.lookup(15).unwrap();
    assert_eq!(found.symbol.name, "outer");
    assert_eq!(found.offset, 15);
}

#[test]
fn fallback_is_asked_on_a_miss_only() {
    let mut first = table(vec![symbol("a", 0, 10)], "/bin/a");
    let second = table(vec![symbol("b", 5, 50)], "/lib/b");
    let alone = table(vec![symbol("b", 5, 50)], "/lib/b");
    first.push_table(second);
    assert_eq!(first.lookup(7).unwrap().symbol.name, "a");
    assert_eq!(first.lookup(30), alone.lookup(30));
    assert_eq!(first.lookup(30).unwrap().symbol.name, "b");
    assert_eq!(first.lookup(30).unwrap().offset, 25);
    assert_eq!(first.lookup(51), None);
}

#[test]
fn pushed_tables_are_asked_in_the_order_of_their_arrival() {
    let mut chain = table(vec![], "/bin/a");
    chain.push_table(table(vec![symbol("early", 0, 10)], "/lib/1"));
    chain.push_table(table(vec![symbol("late", 0, 20)], "/lib/2"));
    assert_eq!(chain.lookup(5).unwrap().symbol.name, "early");
    assert_eq!(chain.lookup(15).unwrap().symbol.name, "late");
    let second = chain.fallback.as_ref().unwrap();
    assert_eq!(second.binary_path, "/lib/1");
    assert_eq!(second.fallback.as_ref().unwrap().binary_path, "/lib/2");
    assert!(second.fallback.as_ref().unwrap().fallback.is_none());
}

#[test]
fn reference_is_shown_with_its_offset_unless_zero() {
    let s = symbol("main", 0x1000, 0x2000);
    assert_eq!(SymbolReference { symbol: &s, offset: 0 }.to_string(), "main");
    assert_eq!(SymbolReference { symbol: &s, offset: 7 }.to_string(), "main+7");
    assert_eq!(SymbolReference { symbol: &s, offset: 1234567890 }.to_string(), "main+1234567890");
    assert_eq!(
        SymbolReference { symbol: &s, offset: u64::MAX }.to_string(),
        "main+18446744073709551615"
    );
}

#[test]
fn copy_of_a_chain_answers_as_the_chain() {
    let mut chain = table(vec![symbol("a", 0, 10), symbol("b", 20, 30)], "/bin/a");
    chain.push_table(table(vec![symbol("c", 5, 50)], "/lib/c"));
    chain.push_table(table(vec![], "/lib/d"));
    let copy = chain.clone();
    assert_eq!(copy.symbols, chain.symbols);
    assert_eq!(copy.binary_path, "/bin/a");
    let second = copy.fallback.as_ref().unwrap();
    assert_eq!(second.binary_path, "/lib/c");
    assert_eq!(second.symbols, vec![symbol("c", 5, 50)]);
    let third = second.fallback.as_ref().unwrap();
    assert_eq!(third.binary_path, "/lib/d");
    assert!(third.fallback.is_none());
    for adr in [0, 7, 15, 25, 40, 51] {
        assert_eq!(copy.lookup(adr), chain.lookup(adr));
    }
    drop(chain);
    assert_eq!(copy.lookup(40).unwrap().symbol.name, "c");
}
