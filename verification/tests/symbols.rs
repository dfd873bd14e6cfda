use bevy_lint::sym::{bevy_symbols, extra_symbols, is_bevy_symbol};

#[test]
fn bevy_symbols_are_sorted() {
    let symbols = bevy_symbols();

    if !symbols.is_sorted() {
        let mut sorted = symbols.clone();
        sorted.sort();

        let sorted_string = sorted.join(",\n    ");

        panic!(
            "`declare_bevy_symbols!` is not sorted, it should be:

declare_bevy_symbols! {{
    {sorted_string},
}}"
        );
    }
}

#[test]
fn bevy_symbols_hold_no_duplicates() {
    let symbols = bevy_symbols();
    for pair in symbols.windows(2) {
        assert!(pair[0] < pair[1], "{} is not before {}", pair[0], pair[1]);
    }
    assert_eq!(symbols.len(), 59);
    assert_eq!(symbols[0], "App");
    assert_eq!(symbols[symbols.len() - 1], "world");
}

#[test]
fn extra_symbols_put_library_symbols_first() {
    let library = ["alpha", "beta"];
    let all = extra_symbols(&library);
    assert_eq!(all.len(), 2 + bevy_symbols().len());
    assert_eq!(all[0], "alpha");
    assert_eq!(all[1], "beta");
    assert_eq!(&all[2..], &bevy_symbols()[..]);
}

#[test]
fn extra_symbols_without_library_symbols() {
    let all = extra_symbols(&[]);
    assert_eq!(all, bevy_symbols());
}

#[test]
fn is_bevy_symbol_finds_every_symbol() {
    for s in bevy_symbols() {
        assert!(is_bevy_symbol(s), "{s} not found");
    }
}

#[test]
fn is_bevy_symbol_rejects_other_strings() {
    assert!(!is_bevy_symbol(""));
    assert!(!is_bevy_symbol("Appp"));
    assert!(!is_bevy_symbol("Ap"));
    assert!(!is_bevy_symbol("app"));
    assert!(!is_bevy_symbol("zzz"));
    assert!(!is_bevy_symbol("AAA"));
    assert!(is_bevy_symbol("iter_current_update_messages"));
    assert!(is_bevy_symbol("DeferredWorld"));
}
