use ketos_trace::{
    clear_traceback, get_traceback, pretty_print, set_traceback, take_traceback, write_integer,
    Name, NameStore, Trace, TraceItem, Traceback, Value,
};

fn render(t: &Trace, names: &NameStore) -> String {
    let mut out = String::new();
    t.fmt(names, &mut out);
    out
}

fn print(v: &Value, names: &NameStore) -> String {
    let mut out = String::new();
    pretty_print(&mut out, names, v);
    out
}

fn list(items: Vec<Value>) -> Value {
    let mut v = Value::Nil;
    for item in items.into_iter().rev() {
        v = Value::Cons(Box::new(item), Box::new(v));
    }
    v
}

fn plus_one_two(names: &mut NameStore) -> Value {
    let plus = names.add("+");
    list(vec![Value::Name(plus), Value::Integer(1), Value::Integer(2)])
}

fn sample(names: &mut NameStore) -> Trace {
    let main = names.add("main");
    let x = names.add("x");
    let plus = names.add("+");
    let expr = plus_one_two(names);
    Trace::new(
        vec![TraceItem::Define(main, x), TraceItem::CallOperator(main, plus)],
        Some(expr),
    )
}

#[test]
fn new_keeps_item_order() {
    let mut names = NameStore::new();
    let a = names.add("a");
    let b = names.add("b");
    let c = names.add("c");
    let items = vec![
        TraceItem::CallSys(c),
        TraceItem::CallCode(a, b),
        TraceItem::CallSys(c),
        TraceItem::UseModule(b, a),
    ];
    let t = Trace::new(items.clone(), None);
    assert_eq!(t.items(), &items[..]);
    let empty = Trace::new(Vec::new(), None);
    assert!(empty.items().is_empty());
}

#[test]
fn single_holds_one_item() {
    let mut names = NameStore::new();
    let f = names.add("f");
    let t = Trace::single(TraceItem::CallSys(f), Some(Value::Integer(3)));
    assert_eq!(t.items(), &[TraceItem::CallSys(f)][..]);
    assert!(matches!(t.expr(), Some(Value::Integer(3))));
}

#[test]
fn take_expr_yields_once() {
    let mut names = NameStore::new();
    let f = names.add("f");
    let mut t = Trace::single(TraceItem::CallLambda(f), Some(Value::Integer(7)));
    assert!(matches!(t.take_expr(), Some(Value::Integer(7))));
    assert!(t.expr().is_none());
    assert!(t.take_expr().is_none());
    assert!(t.take_expr().is_none());
    assert_eq!(t.items(), &[TraceItem::CallLambda(f)][..]);
}

#[test]
fn get_after_set_is_repeatable() {
    let mut names = NameStore::new();
    let t = sample(&mut names);
    let expected = render(&t, &names);
    let mut tb = Traceback::new();
    assert!(get_traceback(&tb).is_none());
    set_traceback(&mut tb, t);
    let mut first = get_traceback(&tb).unwrap();
    assert_eq!(render(&first, &names), expected);
    assert!(first.take_expr().is_some());
    let second = get_traceback(&tb).unwrap();
    assert_eq!(render(&second, &names), expected);
}

#[test]
fn take_after_set_empties_slot() {
    let mut names = NameStore::new();
    let t = sample(&mut names);
    let expected = render(&t, &names);
    let mut tb = Traceback::new();
    set_traceback(&mut tb, t);
    let taken = take_traceback(&mut tb).unwrap();
    assert_eq!(render(&taken, &names), expected);
    assert!(take_traceback(&mut tb).is_none());
    assert!(get_traceback(&tb).is_none());
}

#[test]
fn set_replaces_previous_value() {
    let mut names = NameStore::new();
    let f = names.add("f");
    let g = names.add("g");
    let mut tb = Traceback::new();
    set_traceback(&mut tb, Trace::single(TraceItem::CallSys(f), None));
    set_traceback(&mut tb, Trace::single(TraceItem::CallSys(g), None));
    let t = take_traceback(&mut tb).unwrap();
    assert_eq!(t.items(), &[TraceItem::CallSys(g)][..]);
}

#[test]
fn clear_empties_slot() {
    let mut names = NameStore::new();
    let mut tb = Traceback::new();
    clear_traceback(&mut tb);
    assert!(get_traceback(&tb).is_none());
    set_traceback(&mut tb, sample(&mut names));
    let _ = get_traceback(&tb);
    clear_traceback(&mut tb);
    assert!(get_traceback(&tb).is_none());
    assert!(take_traceback(&mut tb).is_none());
}

#[test]
fn slots_are_isolated() {
    let mut names = NameStore::new();
    let f = names.add("f");
    let g = names.add("g");
    let mut one = Traceback::new();
    let mut two = Traceback::new();
    set_traceback(&mut one, Trace::single(TraceItem::CallSys(f), None));
    assert!(get_traceback(&two).is_none());
    set_traceback(&mut two, Trace::single(TraceItem::CallSys(g), None));
    assert_eq!(get_traceback(&one).unwrap().items(), &[TraceItem::CallSys(f)][..]);
    assert_eq!(take_traceback(&mut two).unwrap().items(), &[TraceItem::CallSys(g)][..]);
    assert_eq!(take_traceback(&mut one).unwrap().items(), &[TraceItem::CallSys(f)][..]);
}

#[test]
fn render_system_call() {
    let mut names = NameStore::new();
    let open = names.add("open-file");
    let t = Trace::single(TraceItem::CallSys(open), None);
    assert_eq!(render(&t, &names), "  In system function open-file\n");
}

#[test]
fn render_items_then_expression() {
    let mut names = NameStore::new();
    let t = sample(&mut names);
    assert_eq!(
        render(&t, &names),
        "  In main, define x\n  In main, operator +\n    (+ 1 2)\n"
    );
}

#[test]
fn render_does_not_consume_expression() {
    let mut names = NameStore::new();
    let t = sample(&mut names);
    let once = render(&t, &names);
    assert_eq!(render(&t, &names), once);
    assert!(t.expr().is_some());
}

#[test]
fn render_appends_to_existing_text() {
    let mut names = NameStore::new();
    let f = names.add("f");
    let t = Trace::single(TraceItem::CallSys(f), None);
    let mut out = String::from("error:\n");
    t.fmt(&names, &mut out);
    assert_eq!(out, "error:\n  In system function f\n");
}

#[test]
fn render_empty_trace() {
    let names = NameStore::new();
    assert_eq!(render(&Trace::new(Vec::new(), None), &names), "");
    assert_eq!(render(&Trace::new(Vec::new(), Some(Value::Nil)), &names), "    ()\n");
}

#[test]
fn render_every_kind() {
    let mut names = NameStore::new();
    let s = names.add("s");
    let n = names.add("n");
    let items = vec![
        TraceItem::CallCode(s, n),
        TraceItem::CallExpr(s),
        TraceItem::CallLambda(s),
        TraceItem::CallMacro(s, n),
        TraceItem::CallOperator(s, n),
        TraceItem::CallSys(n),
        TraceItem::Define(s, n),
        TraceItem::DefineConst(s, n),
        TraceItem::DefineLambda(s),
        TraceItem::DefineMacro(s, n),
        TraceItem::DefineStruct(s, n),
        TraceItem::UseModule(s, n),
    ];
    let expected = [
        "  In s, function n\n",
        "  In s, call expression\n",
        "  In s, lambda\n",
        "  In s, macro expansion n\n",
        "  In s, operator n\n",
        "  In system function n\n",
        "  In s, define n\n",
        "  In s, const n\n",
        "  In s, lambda\n",
        "  In s, macro n\n",
        "  In s, struct n\n",
        "  In s, use n\n",
    ]
    .join("");
    assert_eq!(render(&Trace::new(items, None), &names), expected);
}

#[test]
fn print_atoms_and_lists() {
    let mut names = NameStore::new();
    let a = names.add("a");
    assert_eq!(print(&Value::Nil, &names), "()");
    assert_eq!(print(&Value::Integer(0), &names), "0");
    assert_eq!(print(&Value::Integer(1234), &names), "1234");
    assert_eq!(print(&Value::Integer(-56), &names), "-56");
    assert_eq!(print(&Value::Name(a), &names), "a");
    let nested = list(vec![
        Value::Name(a),
        list(vec![Value::Integer(1), Value::Nil]),
        Value::Integer(-2),
    ]);
    assert_eq!(print(&nested, &names), "(a (1 ()) -2)");
    let pair = Value::Cons(Box::new(Value::Integer(1)), Box::new(Value::Integer(2)));
    assert_eq!(print(&pair, &names), "(1 . 2)");
    let dotted = Value::Cons(
        Box::new(Value::Name(a)),
        Box::new(Value::Cons(Box::new(Value::Integer(3)), Box::new(Value::Name(a)))),
    );
    assert_eq!(print(&dotted, &names), "(a 3 . a)");
}

#[test]
fn integer_extremes() {
    let mut out = String::new();
    write_integer(&mut out, i64::MIN);
    assert_eq!(out, "-9223372036854775808");
    let mut out = String::new();
    write_integer(&mut out, i64::MAX);
    assert_eq!(out, "9223372036854775807");
    let mut out = String::from("x=");
    write_integer(&mut out, 10);
    assert_eq!(out, "x=10");
}

#[test]
fn names_are_interned() {
    let mut names = NameStore::new();
    let a = names.add("alpha");
    let b = names.add("beta");
    let again = names.add("alpha");
    assert_eq!(a, again);
    assert_ne!(a, b);
    assert_eq!(names.len(), 2);
    assert_eq!(names.get(a), "alpha");
    assert_eq!(names.get(b), "beta");
    let _unused: Name = b;
}

#[test]
fn clone_is_independent() {
    let mut names = NameStore::new();
    let t = sample(&mut names);
    let mut copy = t.clone();
    assert!(copy.take_expr().is_some());
    assert!(t.expr().is_some());
    assert_eq!(copy.items(), t.items());
}
