use diesel_enum_derive::diesel_enum_derive;

fn items_of(declaration: &str) -> Vec<syn::ItemImpl> {
    let source = diesel_enum_derive(declaration).unwrap();
    let file: syn::File = syn::parse_str(&source).unwrap();
    let mut impls = Vec::new();
    for item in file.items {
        match item {
            syn::Item::Impl(item) => impls.push(item),
            _ => panic!("only impl blocks are written"),
        }
    }
    impls
}

fn trait_name(item: &syn::ItemImpl) -> String {
    let (_, path, _) = item.trait_.as_ref().unwrap();
    path.segments.last().unwrap().ident.to_string()
}

fn only_method(item: &syn::ItemImpl) -> &syn::ImplItemFn {
    let mut found = None;
    for member in &item.items {
        if let syn::ImplItem::Fn(method) = member {
            assert!(found.is_none());
            found = Some(method);
        }
    }
    found.unwrap()
}

fn path_text(path: &syn::Path) -> String {
    let names: Vec<String> = path.segments.iter().map(|s| s.ident.to_string()).collect();
    names.join("::")
}

fn literal_text(expr: &syn::Expr) -> String {
    match expr {
        syn::Expr::Lit(syn::ExprLit { lit: syn::Lit::Str(text), .. }) => text.value(),
        _ => panic!("a string literal is expected"),
    }
}

fn forward_arms(item: &syn::ItemImpl) -> Vec<(String, String)> {
    let method = only_method(item);
    assert_eq!(method.block.stmts.len(), 1);
    let matched = match &method.block.stmts[0] {
        syn::Stmt::Expr(syn::Expr::Match(matched), None) => matched,
        _ => panic!("the body is one match"),
    };
    let mut arms = Vec::new();
    for arm in &matched.arms {
        let pattern = match &arm.pat {
            syn::Pat::Path(pattern) => path_text(&pattern.path),
            _ => panic!("every pattern is the path of a variant"),
        };
        arms.push((pattern, literal_text(&arm.body)));
    }
    arms
}

fn reverse_arms(item: &syn::ItemImpl) -> (Vec<(String, String)>, String) {
    let method = only_method(item);
    assert_eq!(method.block.stmts.len(), 1);
    let call = match &method.block.stmts[0] {
        syn::Stmt::Expr(syn::Expr::Call(call), None) => call,
        _ => panic!("the body is one call of Ok"),
    };
    let matched = match call.args.first().unwrap() {
        syn::Expr::Match(matched) => matched,
        _ => panic!("Ok is given a match"),
    };
    let mut arms = Vec::new();
    let mut refusal = None;
    for arm in &matched.arms {
        assert!(refusal.is_none());
        match &arm.pat {
            syn::Pat::Lit(pattern) => {
                let variant = match &*arm.body {
                    syn::Expr::Path(variant) => path_text(&variant.path),
                    _ => panic!("every arm gives a variant"),
                };
                arms.push((pattern_text(pattern), variant));
            }
            syn::Pat::Wild(_) => refusal = Some(refusal_text(&arm.body)),
            _ => panic!("every pattern is a literal or the wildcard"),
        }
    }
    (arms, refusal.unwrap())
}

fn pattern_text(pattern: &syn::ExprLit) -> String {
    match &pattern.lit {
        syn::Lit::Str(text) => text.value(),
        _ => panic!("a string literal is expected"),
    }
}

fn refusal_text(body: &syn::Expr) -> String {
    let block = match body {
        syn::Expr::Block(block) => &block.block,
        _ => panic!("the last arm is a block"),
    };
    let returned = match &block.stmts[0] {
        syn::Stmt::Expr(syn::Expr::Return(returned), Some(_)) => returned,
        _ => panic!("the last arm returns"),
    };
    match &**returned.expr.as_ref().unwrap() {
        syn::Expr::Call(call) => literal_text(call.args.first().unwrap()),
        _ => panic!("the last arm returns a call of Err"),
    }
}

fn pair(left: &str, right: &str) -> (String, String) {
    (left.to_string(), right.to_string())
}

#[test]
fn source_is_six_impl_blocks() {
    let impls = items_of("enum S { A, B }");
    let traits: Vec<String> = impls.iter().map(trait_name).collect();
    assert_eq!(traits, vec!["From", "From", "From", "From", "ToSql", "TryFrom"]);
}

#[test]
fn forward_match_maps_each_variant_to_its_name() {
    let impls = items_of("enum Color { Red, Green, Blue }");
    assert_eq!(
        forward_arms(&impls[0]),
        vec![pair("Color::Red", "Red"), pair("Color::Green", "Green"), pair("Color::Blue", "Blue")]
    );
}

#[test]
fn reverse_match_maps_each_name_to_its_variant() {
    let impls = items_of("enum Color { Red, Green, Blue }");
    let (arms, refusal) = reverse_arms(&impls[5]);
    assert_eq!(
        arms,
        vec![pair("Red", "Self::Red"), pair("Green", "Self::Green"), pair("Blue", "Self::Blue")]
    );
    assert_eq!(refusal, "Not a valid Color");
}

#[test]
fn matches_of_an_enum_without_variants_have_no_variant_arm() {
    let impls = items_of("enum Never {}");
    assert_eq!(forward_arms(&impls[0]), Vec::<(String, String)>::new());
    let (arms, refusal) = reverse_arms(&impls[5]);
    assert_eq!(arms, Vec::<(String, String)>::new());
    assert_eq!(refusal, "Not a valid Never");
}

#[test]
fn source_of_many_variants_is_rust() {
    let impls = items_of("pub enum Month { Jan, Feb, Mar, Apr, May, Jun, Jul, Aug, Sep, Oct, Nov, Dec }");
    assert_eq!(impls.len(), 6);
    assert_eq!(forward_arms(&impls[0]).len(), 12);
    assert_eq!(reverse_arms(&impls[5]).0.len(), 12);
}
