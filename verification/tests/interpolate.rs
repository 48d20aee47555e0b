use e1000::interp::{interpolate_idents, DelimToken, Span, Token, TokenTree};

fn sp(lo: u32, hi: u32) -> Span {
    Span { lo, hi }
}

fn id(lo: u32, s: &str) -> TokenTree {
    TokenTree::Token(sp(lo, lo + s.len() as u32), Token::Ident(s.to_string()))
}

fn under(lo: u32) -> TokenTree {
    TokenTree::Token(sp(lo, lo + 1), Token::Underscore)
}

fn lit(lo: u32, s: &str) -> TokenTree {
    TokenTree::Token(sp(lo, lo + s.len() as u32), Token::Literal(s.to_string()))
}

fn punct(lo: u32, s: &str) -> TokenTree {
    TokenTree::Token(sp(lo, lo + s.len() as u32), Token::Punct(s.to_string()))
}

fn pound(lo: u32) -> TokenTree {
    TokenTree::Token(sp(lo, lo + 1), Token::Pound)
}

fn group(lo: u32, hi: u32, d: DelimToken, tts: Vec<TokenTree>) -> TokenTree {
    TokenTree::Delimited(sp(lo, hi), d, tts)
}

fn ident_of(t: &TokenTree) -> Option<String> {
    match t {
        TokenTree::Token(_, Token::Ident(s)) => Some(s.clone()),
        _ => None,
    }
}

fn children(t: &TokenTree) -> &Vec<TokenTree> {
    match t {
        TokenTree::Delimited(_, _, v) => v,
        _ => panic!("not a group"),
    }
}

#[test]
fn test_macro() {
    // fn [foo_ bar _1]() -> u32 { 1 }
    // struct [Foo bar] { [bar _30]: u32 }
    // impl [Foo bar] { pub fn new() -> [Foo bar] { [Foo bar] { [bar _30]: 30 } } }
    let input = vec![
        id(0, "fn"),
        group(3, 16, DelimToken::Bracket, vec![id(4, "foo_"), id(9, "bar"), id(13, "_1")]),
        group(16, 18, DelimToken::Paren, vec![]),
        punct(19, "->"),
        id(22, "u32"),
        group(26, 31, DelimToken::Brace, vec![lit(28, "1")]),
        id(32, "struct"),
        group(39, 48, DelimToken::Bracket, vec![id(40, "Foo"), id(44, "bar")]),
        group(49, 70, DelimToken::Brace, vec![
            group(51, 60, DelimToken::Bracket, vec![id(52, "bar"), id(56, "_30")]),
            punct(60, ":"),
            id(62, "u32"),
        ]),
        id(71, "impl"),
        group(76, 85, DelimToken::Bracket, vec![id(77, "Foo"), id(81, "bar")]),
        group(86, 150, DelimToken::Brace, vec![
            id(88, "pub"),
            id(92, "fn"),
            id(95, "new"),
            group(98, 100, DelimToken::Paren, vec![]),
            punct(101, "->"),
            group(104, 113, DelimToken::Bracket, vec![id(105, "Foo"), id(109, "bar")]),
            group(114, 148, DelimToken::Brace, vec![
                group(116, 125, DelimToken::Bracket, vec![id(117, "Foo"), id(121, "bar")]),
                group(126, 146, DelimToken::Brace, vec![
                    group(128, 137, DelimToken::Bracket, vec![id(129, "bar"), id(133, "_30")]),
                    punct(137, ":"),
                    lit(139, "30"),
                ]),
            ]),
        ]),
    ];
    let out = interpolate_idents(input);
    assert_eq!(out.len(), 12);
    // foo_bar_1() == 1
    assert_eq!(out[1], TokenTree::Token(sp(4, 15), Token::Ident("foo_bar_1".to_string())));
    assert_eq!(children(&out[5])[0], lit(28, "1"));
    // Foobar::new().bar_30 == 30
    assert_eq!(ident_of(&out[7]), Some("Foobar".to_string()));
    assert_eq!(ident_of(&children(&out[8])[0]), Some("bar_30".to_string()));
    assert_eq!(ident_of(&out[10]), Some("Foobar".to_string()));
    let body = children(&out[11]);
    assert_eq!(ident_of(&body[2]), Some("new".to_string()));
    assert_eq!(ident_of(&body[5]), Some("Foobar".to_string()));
    let ctor = children(&body[6]);
    assert_eq!(ident_of(&ctor[0]), Some("Foobar".to_string()));
    let fields = children(&ctor[1]);
    assert_eq!(ident_of(&fields[0]), Some("bar_30".to_string()));
    assert_eq!(fields[2], lit(139, "30"));
}

fn idx_group(lo: u32, v: &str) -> TokenTree {
    group(lo, lo + 3, DelimToken::Bracket, vec![lit(lo + 1, v)])
}

fn brackets_input() -> Vec<TokenTree> {
    // fn brackets(data: &[i32; 1]) -> Vec<i32> {
    //     let mut b: Vec<i32> = vec![];
    //     let c: Vec<i32> = vec![1, 2, 3];
    //     let d: Vec<i32> = vec![1; 25];
    //     b.push(c[1]); b.push(d[1]); b.push(data[0]); b
    // }
    let arr_ty = group(20, 28, DelimToken::Bracket, vec![id(21, "i32"), punct(24, ";"), lit(26, "1")]);
    let empty = group(60, 62, DelimToken::Bracket, vec![]);
    let list = group(80, 89, DelimToken::Bracket, vec![
        lit(81, "1"), punct(82, ","), lit(84, "2"), punct(85, ","), lit(87, "3"),
    ]);
    let repeat = group(100, 108, DelimToken::Bracket, vec![lit(101, "1"), punct(102, ";"), lit(104, "25")]);
    let body = vec![
        id(50, "vec"), punct(53, "!"), empty,
        id(70, "vec"), punct(73, "!"), list,
        id(90, "vec"), punct(93, "!"), repeat,
        id(115, "c"), idx_group(120, "1"),
        id(125, "d"), idx_group(130, "1"),
        id(135, "data"), idx_group(140, "0"),
    ];
    vec![
        id(0, "fn"),
        id(3, "brackets"),
        group(11, 30, DelimToken::Paren, vec![id(12, "data"), punct(16, ":"), punct(18, "&"), arr_ty]),
        group(45, 150, DelimToken::Brace, body),
    ]
}

#[test]
fn test_brackets() {
    let out = interpolate_idents(brackets_input());
    // No bracket group here holds only identifiers: the stream is unchanged,
    // so brackets(&[1]) still builds [c[1], d[1], data[0]] == [2, 1, 1].
    assert_eq!(out, brackets_input());
    let inner = children(&out[3]);
    assert_eq!(inner[10], idx_group(120, "1"));
    assert_eq!(inner[12], idx_group(130, "1"));
    assert_eq!(inner[14], idx_group(140, "0"));
}

#[test]
fn test_underscores() {
    // fn [_ bar]() -> u32 { 1 }
    // fn [bar _]() -> u32 { 2 }
    // fn [_ bar _ bar _]() -> u32 { 3 }
    let input = vec![
        id(0, "fn"),
        group(3, 10, DelimToken::Bracket, vec![under(4), id(6, "bar")]),
        group(10, 12, DelimToken::Paren, vec![]),
        group(20, 25, DelimToken::Brace, vec![lit(22, "1")]),
        id(30, "fn"),
        group(33, 40, DelimToken::Bracket, vec![id(34, "bar"), under(38)]),
        group(40, 42, DelimToken::Paren, vec![]),
        group(50, 55, DelimToken::Brace, vec![lit(52, "2")]),
        id(60, "fn"),
        group(63, 80, DelimToken::Bracket, vec![under(64), id(66, "bar"), under(70), id(72, "bar"), under(76)]),
        group(80, 82, DelimToken::Paren, vec![]),
        group(90, 95, DelimToken::Brace, vec![lit(92, "3")]),
    ];
    let out = interpolate_idents(input);
    assert_eq!(out[1], TokenTree::Token(sp(4, 9), Token::Ident("_bar".to_string())));
    assert_eq!(children(&out[3])[0], lit(22, "1"));
    assert_eq!(out[5], TokenTree::Token(sp(34, 39), Token::Ident("bar_".to_string())));
    assert_eq!(children(&out[7])[0], lit(52, "2"));
    assert_eq!(out[9], TokenTree::Token(sp(64, 77), Token::Ident("_bar_bar_".to_string())));
    assert_eq!(children(&out[11])[0], lit(92, "3"));
}

#[test]
fn test_attributes() {
    // #[inline] fn [_ attr]() -> u32 { 1 }
    // #[allow(unreachable_code)] fn [_ attr _2]() -> u32 { return 1; 2 }
    let inline_attr = || group(1, 9, DelimToken::Bracket, vec![id(2, "inline")]);
    let allow_attr = || group(41, 67, DelimToken::Bracket, vec![
        id(42, "allow"),
        group(47, 66, DelimToken::Paren, vec![id(48, "unreachable_code")]),
    ]);
    let input = vec![
        pound(0),
        inline_attr(),
        id(10, "fn"),
        group(13, 21, DelimToken::Bracket, vec![under(14), id(16, "attr")]),
        group(21, 23, DelimToken::Paren, vec![]),
        group(30, 35, DelimToken::Brace, vec![lit(32, "1")]),
        pound(40),
        allow_attr(),
        id(68, "fn"),
        group(71, 82, DelimToken::Bracket, vec![under(72), id(74, "attr"), id(79, "_2")]),
        group(82, 84, DelimToken::Paren, vec![]),
        group(90, 110, DelimToken::Brace, vec![
            id(92, "return"), lit(99, "1"), punct(100, ";"), lit(102, "2"),
        ]),
    ];
    let out = interpolate_idents(input);
    // The attributes are kept as they are; _attr() == 1.
    assert_eq!(out[1], inline_attr());
    assert_eq!(out[7], allow_attr());
    assert_eq!(ident_of(&out[3]), Some("_attr".to_string()));
    assert_eq!(children(&out[5])[0], lit(32, "1"));
    assert_eq!(ident_of(&out[9]), Some("_attr_2".to_string()));
}

#[test]
fn inner_attribute_kept() {
    // mod m { #![no_implicit_prelude] fn [a b]() {} }
    let attr = || group(9, 30, DelimToken::Bracket, vec![id(10, "no_implicit_prelude")]);
    let input = vec![
        pound(7),
        TokenTree::Token(sp(8, 9), Token::Not),
        attr(),
        id(31, "fn"),
        group(34, 39, DelimToken::Bracket, vec![id(35, "a"), id(37, "b")]),
    ];
    let out = interpolate_idents(input);
    assert_eq!(out[1], TokenTree::Token(sp(8, 9), Token::Not));
    assert_eq!(out[2], attr());
    assert_eq!(ident_of(&out[4]), Some("ab".to_string()));
}

#[test]
fn bang_without_pound_is_not_attribute() {
    let input = vec![
        TokenTree::Token(sp(0, 1), Token::Not),
        group(1, 5, DelimToken::Bracket, vec![id(2, "x")]),
    ];
    let out = interpolate_idents(input);
    assert_eq!(ident_of(&out[1]), Some("x".to_string()));
}
