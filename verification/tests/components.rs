use chat_component::component::{
    ChatComponent, ComponentType, KeybindComponent, ScoreComponent, SelectorComponent,
    TextComponent, TranslationComponent,
};
use chat_component::style::ComponentStyle;

fn plain(text: &str) -> ChatComponent {
    ChatComponent::from_text(text, ComponentStyle::new())
}

#[test]
fn from_component_wraps_kind_and_style() {
    let style = ComponentStyle::new().bold(Some(true));
    let c = ChatComponent::from_component(
        ComponentType::Selector(SelectorComponent::from_selector("@p")),
        style.clone(),
    );
    assert_eq!(c.get_kind(), &ComponentType::Selector(SelectorComponent::from_selector("@p")));
    assert_eq!(c.get_style(), &style);
    assert!(c.get_siblings().is_empty());
}

#[test]
fn constructors_build_the_matching_kind() {
    let style = ComponentStyle::new();
    assert_eq!(
        ChatComponent::from_text("hi", style.clone()).get_kind(),
        &ComponentType::Text(TextComponent::from_text("hi"))
    );
    assert_eq!(
        ChatComponent::from_key("chat.type.text", style.clone()).get_kind(),
        &ComponentType::Translation(TranslationComponent::from_key("chat.type.text"))
    );
    assert_eq!(
        ChatComponent::from_score("Alice", "points", style.clone()).get_kind(),
        &ComponentType::Score(ScoreComponent::from_score("Alice", "points"))
    );
    assert_eq!(
        ChatComponent::from_selector("@a", style.clone()).get_kind(),
        &ComponentType::Selector(SelectorComponent::from_selector("@a"))
    );
    assert_eq!(
        ChatComponent::from_keybind("key.jump", style).get_kind(),
        &ComponentType::Keybind(KeybindComponent::from_keybind("key.jump"))
    );
}

#[test]
fn constructors_start_without_siblings_or_arguments() {
    let c = ChatComponent::from_key("k", ComponentStyle::new());
    assert!(c.get_siblings().is_empty());
    match c.get_kind() {
        ComponentType::Translation(t) => assert!(t.get_args().is_empty()),
        _ => panic!("not a translation"),
    }
    let s = ScoreComponent::from_score("Alice", "points");
    assert_eq!(s.get_value(), None);
}

#[test]
fn text_accessors() {
    let mut t = TextComponent::from_text("a");
    assert_eq!(t.get_text(), "a");
    t.set_text("b");
    assert_eq!(t.get_text(), "b");
    let t = t.text("c");
    assert_eq!(t.get_text(), "c");
}

#[test]
fn text_is_kept_as_written() {
    let t = TextComponent::from_text("  §a\u{e9}\n{\"x\"} ");
    assert_eq!(t.get_text(), "  §a\u{e9}\n{\"x\"} ");
    let empty = TextComponent::from_text("");
    assert_eq!(empty.get_text(), "");
}

#[test]
fn translation_accessors() {
    let mut t = TranslationComponent::from_key("a.b");
    assert_eq!(t.get_key(), "a.b");
    t.set_key("c.d");
    assert_eq!(t.get_key(), "c.d");
    let t = t.key("e.f");
    assert_eq!(t.get_key(), "e.f");
    assert!(t.get_args().is_empty());
}

#[test]
fn translation_arguments_are_appended_in_order() {
    let mut t = TranslationComponent::from_key("k");
    t.add_arg(plain("one"));
    t.add_arg(plain("two"));
    let t = t.argument(plain("three"));
    let args = t.get_args();
    assert_eq!(args.len(), 3);
    assert_eq!(args[0], plain("one"));
    assert_eq!(args[1], plain("two"));
    assert_eq!(args[2], plain("three"));
    assert_eq!(t.get_key(), "k");
}

#[test]
fn translation_set_args_replaces_the_list() {
    let mut t = TranslationComponent::from_key("k").argument(plain("old"));
    t.set_args(vec![plain("x"), plain("y")]);
    assert_eq!(t.get_args(), &vec![plain("x"), plain("y")]);
    let t = t.args(vec![]);
    assert!(t.get_args().is_empty());
    assert_eq!(t.get_key(), "k");
}

#[test]
fn score_accessors() {
    let mut s = ScoreComponent::from_score("Alice", "points");
    assert_eq!(s.get_name(), "Alice");
    assert_eq!(s.get_objective(), "points");
    assert_eq!(s.get_value(), None);
    s.set_name("Bob");
    s.set_objective("kills");
    s.set_value(Some("7"));
    assert_eq!(s.get_name(), "Bob");
    assert_eq!(s.get_objective(), "kills");
    assert_eq!(s.get_value(), Some(&"7".to_string()));
    s.set_value(None::<&str>);
    assert_eq!(s.get_value(), None);
    assert_eq!(s.get_name(), "Bob");
    assert_eq!(s.get_objective(), "kills");
}

#[test]
fn text_is_taken_from_slices_and_strings_alike() {
    let owned = String::from("same");
    assert_eq!(TextComponent::from_text("same"), TextComponent::from_text(owned.clone()));
    assert_eq!(TextComponent::from_text("same"), TextComponent::from_text(&owned));
    assert_eq!(
        ScoreComponent::from_score("n", String::from("o")).value(Some(String::from("v"))),
        ScoreComponent::from_score(String::from("n"), "o").value(Some("v"))
    );
    assert_eq!(
        ChatComponent::from_key(String::from("k"), ComponentStyle::new()),
        ChatComponent::from_key("k", ComponentStyle::new())
    );
    let mut k = KeybindComponent::from_keybind("a");
    k.set_keybind(String::from("b"));
    assert_eq!(k, KeybindComponent::from_keybind("b"));
}

#[test]
fn selector_accessors() {
    let mut s = SelectorComponent::from_selector("@p");
    assert_eq!(s.get_selector(), "@p");
    s.set_selector("@e[type=cow]");
    assert_eq!(s.get_selector(), "@e[type=cow]");
    let s = s.selector("@r");
    assert_eq!(s.get_selector(), "@r");
}

#[test]
fn keybind_accessors() {
    let mut k = KeybindComponent::from_keybind("key.jump");
    assert_eq!(k.get_keybind(), "key.jump");
    k.set_keybind("key.sneak");
    assert_eq!(k.get_keybind(), "key.sneak");
    let k = k.keybind("key.inventory");
    assert_eq!(k.get_keybind(), "key.inventory");
}

#[test]
fn builder_chain_equals_separate_sets() {
    let chained = ScoreComponent::from_score("Alice", "points")
        .name("Bob")
        .objective("kills")
        .value(Some("3"));
    let mut stepwise = ScoreComponent::from_score("Alice", "points");
    stepwise.set_name("Bob");
    stepwise.set_objective("kills");
    stepwise.set_value(Some("3"));
    assert_eq!(chained, stepwise);

    let chained = TranslationComponent::from_key("a").key("b").argument(plain("x"));
    let mut stepwise = TranslationComponent::from_key("a");
    stepwise.set_key("b");
    stepwise.add_arg(plain("x"));
    assert_eq!(chained, stepwise);

    let mut t = TextComponent::from_text("a");
    t.set_text("b");
    assert_eq!(TextComponent::from_text("a").text("b"), t);
    let mut s = SelectorComponent::from_selector("a");
    s.set_selector("b");
    assert_eq!(SelectorComponent::from_selector("a").selector("b"), s);
    let mut k = KeybindComponent::from_keybind("a");
    k.set_keybind("b");
    assert_eq!(KeybindComponent::from_keybind("a").keybind("b"), k);
}

#[test]
fn builder_order_does_not_matter_for_distinct_fields() {
    let a = ScoreComponent::from_score("x", "y").name("n").objective("o");
    let b = ScoreComponent::from_score("x", "y").objective("o").name("n");
    assert_eq!(a, b);
    assert_eq!(a, ScoreComponent::from_score("n", "o"));
}

#[test]
fn kind_is_changed_in_place() {
    let mut c = plain("before");
    match c.get_kind_mut() {
        ComponentType::Text(t) => t.set_text("after"),
        _ => panic!("not a text"),
    }
    assert_eq!(c, plain("after"));
}

#[test]
fn siblings_keep_their_order() {
    let mut c = plain("root");
    c.get_siblings_mut().push(plain("first"));
    c.get_siblings_mut().push(plain("second"));
    c.get_siblings_mut().push(plain("third"));
    let siblings = c.get_siblings();
    assert_eq!(siblings.len(), 3);
    assert_eq!(siblings[0], plain("first"));
    assert_eq!(siblings[1], plain("second"));
    assert_eq!(siblings[2], plain("third"));
    c.get_siblings_mut().remove(0);
    assert_eq!(c.get_siblings(), &vec![plain("second"), plain("third")]);
}

#[test]
fn style_is_changed_in_place() {
    let mut c = plain("x");
    c.get_style_mut().set_italic(Some(true));
    assert_eq!(c.get_style().get_italic(), Some(true));
    assert_eq!(c.get_style(), &ComponentStyle::new().italic(Some(true)));
}

#[test]
fn style_set_on_component_equals_style_set_on_style() {
    let mut forwarded = plain("x");
    forwarded.set_bold(Some(true));
    forwarded.set_italic(Some(false));
    forwarded.set_underlined(Some(true));
    forwarded.set_strikethrough(Some(false));
    forwarded.set_obfuscated(Some(true));
    forwarded.set_color(Some("red"));
    forwarded.set_insertion(Some("/help"));
    forwarded.set_font(Some("minecraft:alt"));

    let mut explicit = plain("x");
    {
        let style = explicit.get_style_mut();
        style.set_bold(Some(true));
        style.set_italic(Some(false));
        style.set_underlined(Some(true));
        style.set_strikethrough(Some(false));
        style.set_obfuscated(Some(true));
        style.set_color(Some("red"));
        style.set_insertion(Some("/help"));
        style.set_font(Some("minecraft:alt"));
    }
    assert_eq!(forwarded, explicit);

    forwarded.set_color(None::<&str>);
    explicit.get_style_mut().set_color(None::<&str>);
    assert_eq!(forwarded, explicit);
    assert_ne!(forwarded, plain("x"));
}

#[test]
fn style_read_on_component_equals_style_read_on_style() {
    let style = ComponentStyle::new()
        .bold(Some(false))
        .italic(Some(true))
        .underlined(Some(false))
        .strikethrough(Some(true))
        .obfuscated(Some(false))
        .color(Some("gold"))
        .insertion(Some("ins"))
        .font(Some("f"));
    let c = ChatComponent::from_text("x", style);
    assert_eq!(c.get_bold(), Some(false));
    assert_eq!(c.get_italic(), Some(true));
    assert_eq!(c.get_underlined(), Some(false));
    assert_eq!(c.get_strikethrough(), Some(true));
    assert_eq!(c.get_obfuscated(), Some(false));
    assert_eq!(c.get_color(), Some(&"gold".to_string()));
    assert_eq!(c.get_insertion(), Some(&"ins".to_string()));
    assert_eq!(c.get_font(), Some(&"f".to_string()));
    assert_eq!(c.get_bold(), c.get_style().get_bold());
    assert_eq!(c.get_color(), c.get_style().get_color());
    let bare = plain("x");
    assert_eq!(bare.get_bold(), None);
    assert_eq!(bare.get_color(), None);
}

#[test]
fn clone_is_equal_and_independent() {
    let mut source = ChatComponent::from_text("text", ComponentStyle::new().bold(Some(true)));
    source.get_siblings_mut().push(plain("child"));
    let snapshot = source.clone();
    assert_eq!(snapshot, source);

    let mut copy = source.clone();
    match copy.get_kind_mut() {
        ComponentType::Text(t) => t.set_text("changed"),
        _ => panic!("not a text"),
    }
    copy.set_bold(None);
    copy.set_color(Some("red"));
    copy.get_siblings_mut().push(plain("another"));
    match copy.get_siblings_mut()[0].get_kind_mut() {
        ComponentType::Text(t) => t.set_text("changed child"),
        _ => panic!("not a text"),
    }
    assert_ne!(copy, source);
    assert_eq!(source, snapshot);
    assert_eq!(source.get_siblings().len(), 1);
    assert_eq!(source.get_siblings()[0], plain("child"));
    assert_eq!(source.get_bold(), Some(true));
}

#[test]
fn clone_copies_arguments_deeply() {
    let inner = ChatComponent::from_component(
        ComponentType::Translation(TranslationComponent::from_key("inner").argument(plain("deep"))),
        ComponentStyle::new(),
    );
    let source = ChatComponent::from_component(
        ComponentType::Translation(TranslationComponent::from_key("outer").argument(inner)),
        ComponentStyle::new(),
    );
    let mut copy = source.clone();
    assert_eq!(copy, source);
    match copy.get_kind_mut() {
        ComponentType::Translation(t) => t.add_arg(plain("more")),
        _ => panic!("not a translation"),
    }
    match source.get_kind() {
        ComponentType::Translation(t) => assert_eq!(t.get_args().len(), 1),
        _ => panic!("not a translation"),
    }
    assert_ne!(copy, source);
}

#[test]
fn style_starts_empty() {
    let style = ComponentStyle::new();
    assert!(style.is_empty());
    assert_eq!(style, ComponentStyle::default());
    assert_eq!(style.get_bold(), None);
    assert_eq!(style.get_italic(), None);
    assert_eq!(style.get_underlined(), None);
    assert_eq!(style.get_strikethrough(), None);
    assert_eq!(style.get_obfuscated(), None);
    assert_eq!(style.get_color(), None);
    assert_eq!(style.get_insertion(), None);
    assert_eq!(style.get_font(), None);
}

#[test]
fn style_attributes_are_set_and_cleared_one_by_one() {
    let mut style = ComponentStyle::new();
    style.set_bold(Some(false));
    assert!(!style.is_empty());
    assert_eq!(style.get_bold(), Some(false));
    assert_eq!(style.get_italic(), None);
    style.set_bold(None);
    assert!(style.is_empty());
    style.set_font(Some("uniform"));
    assert_eq!(style.get_font(), Some(&"uniform".to_string()));
    assert_eq!(style.get_color(), None);
    assert!(!style.is_empty());
    style.set_font(None::<&str>);
    assert!(style.is_empty());
}

#[test]
fn style_builders_equal_setters() {
    let built = ComponentStyle::new().underlined(Some(true)).color(Some("blue"));
    let mut set = ComponentStyle::new();
    set.set_underlined(Some(true));
    set.set_color(Some("blue"));
    assert_eq!(built, set);
    assert_eq!(built.clone(), built);
}
