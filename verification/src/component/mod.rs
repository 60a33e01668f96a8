//! Chat components: the five kinds of content, and the node that gives a
//! kind its style and the components appended after it.
use crate::style::{ComponentStyle, StyleView};
use crate::text::{borrowed_text, copied_text, owned_text, text_of, IntoText};
use vstd::prelude::*;

verus! {

/// What a [`TextComponent`] holds.
pub struct TextView {
    pub text: Seq<char>,
}

/// What a [`TranslationComponent`] holds.
pub struct TranslationView {
    pub key: Seq<char>,
    pub with: Seq<ComponentView>,
}

/// What a [`ScoreComponent`] holds.
pub struct ScoreView {
    pub name: Seq<char>,
    pub objective: Seq<char>,
    pub value: Option<Seq<char>>,
}

/// What a [`SelectorComponent`] holds.
pub struct SelectorView {
    pub selector: Seq<char>,
}

/// What a [`KeybindComponent`] holds.
pub struct KeybindView {
    pub keybind: Seq<char>,
}

/// What a [`ComponentType`] holds.
pub enum KindView {
    Text(TextView),
    Translation(TranslationView),
    Score(ScoreView),
    Selector(SelectorView),
    Keybind(KeybindView),
}

/// What a [`ChatComponent`] holds: its kind, its style and the components
/// appended after it, in order.
pub struct ComponentView {
    pub kind: KindView,
    pub style: StyleView,
    pub siblings: Seq<ComponentView>,
}

impl TranslationView {
    /// This translation with the key replaced.
    pub open spec fn with_key(self, key: Seq<char>) -> TranslationView {
        TranslationView { key, ..self }
    }

    /// This translation with the arguments replaced.
    pub open spec fn with_args(self, arguments: Seq<ComponentView>) -> TranslationView {
        TranslationView { with: arguments, ..self }
    }

    /// This translation with one more argument at the end.
    pub open spec fn with_arg(self, argument: ComponentView) -> TranslationView {
        TranslationView { with: self.with.push(argument), ..self }
    }
}

impl ScoreView {
    /// This score with the name replaced.
    pub open spec fn with_name(self, name: Seq<char>) -> ScoreView {
        ScoreView { name, ..self }
    }

    /// This score with the objective replaced.
    pub open spec fn with_objective(self, objective: Seq<char>) -> ScoreView {
        ScoreView { objective, ..self }
    }

    /// This score with the shown value set or cleared.
    pub open spec fn with_value(self, value: Option<Seq<char>>) -> ScoreView {
        ScoreView { value, ..self }
    }
}

impl ComponentView {
    /// This component with another kind.
    pub open spec fn with_kind(self, kind: KindView) -> ComponentView {
        ComponentView { kind, ..self }
    }

    /// This component with another style.
    pub open spec fn with_style(self, style: StyleView) -> ComponentView {
        ComponentView { style, ..self }
    }

    /// This component with other siblings.
    pub open spec fn with_siblings(self, siblings: Seq<ComponentView>) -> ComponentView {
        ComponentView { siblings, ..self }
    }

    /// This component with the bold attribute of its style set or cleared.
    pub open spec fn with_bold(self, bold: Option<bool>) -> ComponentView {
        ComponentView { style: StyleView { bold, ..self.style }, ..self }
    }

    /// This component with the italic attribute of its style set or cleared.
    pub open spec fn with_italic(self, italic: Option<bool>) -> ComponentView {
        ComponentView { style: StyleView { italic, ..self.style }, ..self }
    }

    /// This component with the underlined attribute of its style set or cleared.
    pub open spec fn with_underlined(self, underlined: Option<bool>) -> ComponentView {
        ComponentView { style: StyleView { underlined, ..self.style }, ..self }
    }

    /// This component with the strikethrough attribute of its style set or cleared.
    pub open spec fn with_strikethrough(self, strikethrough: Option<bool>) -> ComponentView {
        ComponentView { style: StyleView { strikethrough, ..self.style }, ..self }
    }

    /// This component with the obfuscated attribute of its style set or cleared.
    pub open spec fn with_obfuscated(self, obfuscated: Option<bool>) -> ComponentView {
        ComponentView { style: StyleView { obfuscated, ..self.style }, ..self }
    }

    /// This component with the color attribute of its style set or cleared.
    pub open spec fn with_color(self, color: Option<Seq<char>>) -> ComponentView {
        ComponentView { style: StyleView { color, ..self.style }, ..self }
    }

    /// This component with the insertion attribute of its style set or cleared.
    pub open spec fn with_insertion(self, insertion: Option<Seq<char>>) -> ComponentView {
        ComponentView { style: StyleView { insertion, ..self.style }, ..self }
    }

    /// This component with the font attribute of its style set or cleared.
    pub open spec fn with_font(self, font: Option<Seq<char>>) -> ComponentView {
        ComponentView { style: StyleView { font, ..self.style }, ..self }
    }
}

/// One node of a chat message.
#[derive(Debug, PartialEq, Eq)]
pub struct ChatComponent {
    kind: ComponentType,
    style: ComponentStyle,
    siblings: Vec<ChatComponent>,
}

/// The kinds of content a chat component can have.
#[derive(Debug, PartialEq, Eq)]
pub enum ComponentType {
    /// Literal text.
    Text(TextComponent),
    /// A key of the client's language file, with the values for its
    /// placeholders.
    Translation(TranslationComponent),
    /// A scoreboard value. Clients before 1.8 do not know this kind; the
    /// library does not check versions.
    Score(ScoreComponent),
    /// An entity selector. Known since 1.8 and resolved by the server only;
    /// the library does not check either.
    Selector(SelectorComponent),
    /// The key bound to an action. Clients before 1.12 do not know this
    /// kind; the library does not check versions.
    Keybind(KeybindComponent),
}

/// Literal text.
#[derive(Debug, PartialEq, Eq)]
pub struct TextComponent {
    text: String,
}

/// A translation key and the components substituted for its placeholders,
/// by position.
#[derive(Debug, PartialEq, Eq)]
pub struct TranslationComponent {
    key: String,
    with: Vec<ChatComponent>,
}

/// A reference to a scoreboard value: whose score, under which objective,
/// and optionally a fixed value shown in place of the live one.
#[derive(Debug, PartialEq, Eq)]
pub struct ScoreComponent {
    name: String,
    objective: String,
    value: Option<String>,
}

/// An entity selector, kept as written.
#[derive(Debug, PartialEq, Eq)]
pub struct SelectorComponent {
    selector: String,
}

/// The name of a key binding, kept as written.
#[derive(Debug, PartialEq, Eq)]
pub struct KeybindComponent {
    keybind: String,
}

/// The content of a component.
pub closed spec fn component_view(c: ChatComponent) -> ComponentView
    decreases c,
{
    ComponentView { kind: kind_view(c.kind), style: c.style@, siblings: views(c.siblings@) }
}

/// The content of a kind.
pub open spec fn kind_view(k: ComponentType) -> KindView
    decreases k,
{
    match k {
        ComponentType::Text(t) => KindView::Text(t@),
        ComponentType::Translation(t) => KindView::Translation(translation_view(t)),
        ComponentType::Score(s) => KindView::Score(s@),
        ComponentType::Selector(s) => KindView::Selector(s@),
        ComponentType::Keybind(k) => KindView::Keybind(k@),
    }
}

/// The content of a translation.
pub closed spec fn translation_view(t: TranslationComponent) -> TranslationView
    decreases t,
{
    TranslationView { key: t.key@, with: views(t.with@) }
}

/// The contents of a sequence of components, in the same order.
pub open spec fn views(s: Seq<ChatComponent>) -> Seq<ComponentView>
    decreases s,
{
    Seq::new(
        s.len(),
        |i: int|
            if 0 <= i < s.len() {
                component_view(s[i])
            } else {
                arbitrary()
            },
    )
}

/// `views` keeps the length and takes the view of each element.
pub proof fn lemma_views(s: Seq<ChatComponent>)
    ensures
        views(s).len() == s.len(),
        forall|i: int| 0 <= i < s.len() ==> #[trigger] views(s)[i] == s[i]@,
{
}

/// `views` of a sequence with one more element at its end.
pub proof fn lemma_views_push(s: Seq<ChatComponent>, c: ChatComponent)
    ensures
        views(s.push(c)) == views(s).push(c@),
{
    assert(views(s.push(c)) =~= views(s).push(c@));
}

impl View for ChatComponent {
    type V = ComponentView;

    open spec fn view(&self) -> ComponentView {
        component_view(*self)
    }
}

impl View for ComponentType {
    type V = KindView;

    open spec fn view(&self) -> KindView {
        kind_view(*self)
    }
}

impl View for TextComponent {
    type V = TextView;

    closed spec fn view(&self) -> TextView {
        TextView { text: self.text@ }
    }
}

impl View for TranslationComponent {
    type V = TranslationView;

    open spec fn view(&self) -> TranslationView {
        translation_view(*self)
    }
}

impl View for ScoreComponent {
    type V = ScoreView;

    closed spec fn view(&self) -> ScoreView {
        ScoreView { name: self.name@, objective: self.objective@, value: text_of(self.value) }
    }
}

impl View for SelectorComponent {
    type V = SelectorView;

    closed spec fn view(&self) -> SelectorView {
        SelectorView { selector: self.selector@ }
    }
}

impl View for KeybindComponent {
    type V = KeybindView;

    closed spec fn view(&self) -> KeybindView {
        KeybindView { keybind: self.keybind@ }
    }
}

/// A deep copy of a list of components.
fn clone_all(list: &Vec<ChatComponent>) -> (r: Vec<ChatComponent>)
    ensures
        views(r@) == views(list@),
    decreases list,
{
    let mut copy: Vec<ChatComponent> = Vec::new();
    let mut i: usize = 0;
    while i < list.len()
        invariant
            i <= list.len(),
            copy.len() == i,
            forall|j: int| 0 <= j < i ==> copy@[j]@ == list@[j]@,
        decreases list.len() - i,
    {
        let c = list[i].clone();
        copy.push(c);
        i = i + 1;
    }
    proof {
        assert(views(copy@) =~= views(list@));
    }
    copy
}

impl Clone for ChatComponent {
    /// A deep copy: the kind, the style and every sibling are duplicated.
    fn clone(&self) -> (r: Self)
        ensures
            r@ == self@,
        decreases self,
    {
        ChatComponent {
            kind: self.kind.clone(),
            style: self.style.clone(),
            siblings: clone_all(&self.siblings),
        }
    }
}

impl Clone for ComponentType {
    fn clone(&self) -> (r: Self)
        ensures
            r@ == self@,
        decreases self,
    {
        match self {
            ComponentType::Text(t) => ComponentType::Text(t.clone()),
            ComponentType::Translation(t) => ComponentType::Translation(t.clone()),
            ComponentType::Score(s) => ComponentType::Score(s.clone()),
            ComponentType::Selector(s) => ComponentType::Selector(s.clone()),
            ComponentType::Keybind(k) => ComponentType::Keybind(k.clone()),
        }
    }
}

impl Clone for TextComponent {
    fn clone(&self) -> (r: Self)
        ensures
            r@ == self@,
    {
        TextComponent { text: self.text.clone() }
    }
}

impl Clone for TranslationComponent {
    fn clone(&self) -> (r: Self)
        ensures
            r@ == self@,
        decreases self,
    {
        TranslationComponent { key: self.key.clone(), with: clone_all(&self.with) }
    }
}

impl Clone for ScoreComponent {
    fn clone(&self) -> (r: Self)
        ensures
            r@ == self@,
    {
        ScoreComponent {
            name: self.name.clone(),
            objective: self.objective.clone(),
            value: copied_text(&self.value),
        }
    }
}

impl Clone for SelectorComponent {
    fn clone(&self) -> (r: Self)
        ensures
            r@ == self@,
    {
        SelectorComponent { selector: self.selector.clone() }
    }
}

impl Clone for KeybindComponent {
    fn clone(&self) -> (r: Self)
        ensures
            r@ == self@,
    {
        KeybindComponent { keybind: self.keybind.clone() }
    }
}

impl ChatComponent {
    /// A component of the given kind and style, with nothing appended.
    pub fn from_component(kind: ComponentType, style: ComponentStyle) -> (r: Self)
        ensures
            r@ == (ComponentView { kind: kind@, style: style@, siblings: Seq::empty() }),
    {
        let r = ChatComponent { kind, style, siblings: Vec::new() };
        proof {
            assert(views(r.siblings@) =~= Seq::empty());
        }
        r
    }

    /// A text component.
    pub fn from_text<T: IntoText>(text: T, style: ComponentStyle) -> (r: Self)
        ensures
            r@ == (ComponentView {
                kind: KindView::Text(TextView { text: text@ }),
                style: style@,
                siblings: Seq::empty(),
            }),
    {
        ChatComponent::from_component(ComponentType::Text(TextComponent::from_text(text)), style)
    }

    /// A translation component without arguments.
    pub fn from_key<T: IntoText>(key: T, style: ComponentStyle) -> (r: Self)
        ensures
            r@ == (ComponentView {
                kind: KindView::Translation(TranslationView { key: key@, with: Seq::empty() }),
                style: style@,
                siblings: Seq::empty(),
            }),
    {
        ChatComponent::from_component(
            ComponentType::Translation(TranslationComponent::from_key(key)),
            style,
        )
    }

    /// A score component that shows the live score.
    pub fn from_score<T: IntoText, U: IntoText>(
        name: T,
        objective: U,
        style: ComponentStyle,
    ) -> (r: Self)
        ensures
            r@ == (ComponentView {
                kind: KindView::Score(
                    ScoreView { name: name@, objective: objective@, value: None },
                ),
                style: style@,
                siblings: Seq::empty(),
            }),
    {
        ChatComponent::from_component(
            ComponentType::Score(ScoreComponent::from_score(name, objective)),
            style,
        )
    }

    /// A selector component.
    pub fn from_selector<T: IntoText>(selector: T, style: ComponentStyle) -> (r: Self)
        ensures
            r@ == (ComponentView {
                kind: KindView::Selector(SelectorView { selector: selector@ }),
                style: style@,
                siblings: Seq::empty(),
            }),
    {
        ChatComponent::from_component(
            ComponentType::Selector(SelectorComponent::from_selector(selector)),
            style,
        )
    }

    /// A keybind component.
    pub fn from_keybind<T: IntoText>(keybind: T, style: ComponentStyle) -> (r: Self)
        ensures
            r@ == (ComponentView {
                kind: KindView::Keybind(KeybindView { keybind: keybind@ }),
                style: style@,
                siblings: Seq::empty(),
            }),
    {
        ChatComponent::from_component(
            ComponentType::Keybind(KeybindComponent::from_keybind(keybind)),
            style,
        )
    }

    /// The kind of this component.
    pub fn get_kind(&self) -> (r: &ComponentType)
        ensures
            r@ == self@.kind,
    {
        &self.kind
    }

    /// The kind of this component, for changing it in place. Whatever is
    /// written through the reference becomes the component's kind; the style
    /// and the siblings stay.
    pub fn get_kind_mut(&mut self) -> (r: &mut ComponentType)
        ensures
            r@ == old(self)@.kind,
            final(self)@ == old(self)@.with_kind(final(r)@),
    {
        &mut self.kind
    }

    /// The style of this component.
    pub fn get_style(&self) -> (r: &ComponentStyle)
        ensures
            r@ == self@.style,
    {
        &self.style
    }

    /// The style of this component, for changing it in place.
    pub fn get_style_mut(&mut self) -> (r: &mut ComponentStyle)
        ensures
            r@ == old(self)@.style,
            final(self)@ == old(self)@.with_style(final(r)@),
    {
        &mut self.style
    }

    /// The components appended after this one, in order.
    pub fn get_siblings(&self) -> (r: &Vec<ChatComponent>)
        ensures
            views(r@) == self@.siblings,
            r@.len() == self@.siblings.len(),
    {
        &self.siblings
    }

    /// The components appended after this one, for changing the list in
    /// place.
    pub fn get_siblings_mut(&mut self) -> (r: &mut Vec<ChatComponent>)
        ensures
            views(r@) == old(self)@.siblings,
            r@.len() == old(self)@.siblings.len(),
            final(self)@ == old(self)@.with_siblings(views(final(r)@)),
    {
        &mut self.siblings
    }

    /// The bold attribute of this component's style.
    pub fn get_bold(&self) -> (r: Option<bool>)
        ensures
            r == self@.style.bold,
    {
        self.style.get_bold()
    }

    /// Sets or clears the bold attribute of this component's style.
    pub fn set_bold(&mut self, bold: Option<bool>)
        ensures
            final(self)@ == old(self)@.with_bold(bold),
    {
        self.style.set_bold(bold);
    }

    /// The italic attribute of this component's style.
    pub fn get_italic(&self) -> (r: Option<bool>)
        ensures
            r == self@.style.italic,
    {
        self.style.get_italic()
    }

    /// Sets or clears the italic attribute of this component's style.
    pub fn set_italic(&mut self, italic: Option<bool>)
        ensures
            final(self)@ == old(self)@.with_italic(italic),
    {
        self.style.set_italic(italic);
    }

    /// The underlined attribute of this component's style.
    pub fn get_underlined(&self) -> (r: Option<bool>)
        ensures
            r == self@.style.underlined,
    {
        self.style.get_underlined()
    }

    /// Sets or clears the underlined attribute of this component's style.
    pub fn set_underlined(&mut self, underlined: Option<bool>)
        ensures
            final(self)@ == old(self)@.with_underlined(underlined),
    {
        self.style.set_underlined(underlined);
    }

    /// The strikethrough attribute of this component's style.
    pub fn get_strikethrough(&self) -> (r: Option<bool>)
        ensures
            r == self@.style.strikethrough,
    {
        self.style.get_strikethrough()
    }

    /// Sets or clears the strikethrough attribute of this component's style.
    pub fn set_strikethrough(&mut self, strikethrough: Option<bool>)
        ensures
            final(self)@ == old(self)@.with_strikethrough(strikethrough),
    {
        self.style.set_strikethrough(strikethrough);
    }

    /// The obfuscated attribute of this component's style.
    pub fn get_obfuscated(&self) -> (r: Option<bool>)
        ensures
            r == self@.style.obfuscated,
    {
        self.style.get_obfuscated()
    }

    /// Sets or clears the obfuscated attribute of this component's style.
    pub fn set_obfuscated(&mut self, obfuscated: Option<bool>)
        ensures
            final(self)@ == old(self)@.with_obfuscated(obfuscated),
    {
        self.style.set_obfuscated(obfuscated);
    }

    /// The color attribute of this component's style.
    pub fn get_color(&self) -> (r: Option<&String>)
        ensures
            text_of(r) == self@.style.color,
    {
        self.style.get_color()
    }

    /// Sets or clears the color attribute of this component's style.
    pub fn set_color<T: IntoText>(&mut self, color: Option<T>)
        ensures
            final(self)@ == old(self)@.with_color(text_of(color)),
    {
        self.style.set_color(color);
    }

    /// The insertion attribute of this component's style.
    pub fn get_insertion(&self) -> (r: Option<&String>)
        ensures
            text_of(r) == self@.style.insertion,
    {
        self.style.get_insertion()
    }

    /// Sets or clears the insertion attribute of this component's style.
    pub fn set_insertion<T: IntoText>(&mut self, insertion: Option<T>)
        ensures
            final(self)@ == old(self)@.with_insertion(text_of(insertion)),
    {
        self.style.set_insertion(insertion);
    }

    /// The font attribute of this component's style.
    pub fn get_font(&self) -> (r: Option<&String>)
        ensures
            text_of(r) == self@.style.font,
    {
        self.style.get_font()
    }

    /// Sets or clears the font attribute of this component's style.
    pub fn set_font<T: IntoText>(&mut self, font: Option<T>)
        ensures
            final(self)@ == old(self)@.with_font(text_of(font)),
    {
        self.style.set_font(font);
    }
}

impl TextComponent {
    /// A text component with the given text.
    pub fn from_text<T: IntoText>(text: T) -> (r: Self)
        ensures
            r@ == (TextView { text: text@ }),
    {
        TextComponent { text: text.into_text() }
    }

    /// The text.
    pub fn get_text(&self) -> (r: &String)
        ensures
            r@ == self@.text,
    {
        &self.text
    }

    /// Replaces the text.
    pub fn set_text<T: IntoText>(&mut self, text: T)
        ensures
            final(self)@ == (TextView { text: text@ }),
    {
        self.text = text.into_text();
    }

    /// This component with the text replaced.
    pub fn text<T: IntoText>(self, text: T) -> (r: Self)
        ensures
            r@ == (TextView { text: text@ }),
    {
        let mut t = self;
        t.set_text(text);
        t
    }
}

impl TranslationComponent {
    /// A translation of the given key, without arguments.
    pub fn from_key<T: IntoText>(key: T) -> (r: Self)
        ensures
            r@ == (TranslationView { key: key@, with: Seq::empty() }),
    {
        let r = TranslationComponent { key: key.into_text(), with: Vec::new() };
        proof {
            assert(views(r.with@) =~= Seq::empty());
        }
        r
    }

    /// The translation key.
    pub fn get_key(&self) -> (r: &String)
        ensures
            r@ == self@.key,
    {
        &self.key
    }

    /// Replaces the translation key; the arguments stay.
    pub fn set_key<T: IntoText>(&mut self, key: T)
        ensures
            final(self)@ == old(self)@.with_key(key@),
    {
        self.key = key.into_text();
    }

    /// This translation with the key replaced.
    pub fn key<T: IntoText>(self, key: T) -> (r: Self)
        ensures
            r@ == self@.with_key(key@),
    {
        let mut t = self;
        t.set_key(key);
        t
    }

    /// The arguments, in the order of the placeholders.
    pub fn get_args(&self) -> (r: &Vec<ChatComponent>)
        ensures
            views(r@) == self@.with,
            r@.len() == self@.with.len(),
    {
        &self.with
    }

    /// Replaces the arguments; the key stays.
    pub fn set_args(&mut self, arguments: Vec<ChatComponent>)
        ensures
            final(self)@ == old(self)@.with_args(views(arguments@)),
    {
        self.with = arguments;
    }

    /// This translation with the arguments replaced.
    pub fn args(self, arguments: Vec<ChatComponent>) -> (r: Self)
        ensures
            r@ == self@.with_args(views(arguments@)),
    {
        let mut t = self;
        t.set_args(arguments);
        t
    }

    /// Appends one argument after those already there.
    pub fn add_arg(&mut self, component: ChatComponent)
        ensures
            final(self)@ == old(self)@.with_arg(component@),
    {
        proof {
            lemma_views_push(self.with@, component);
        }
        self.with.push(component);
    }

    /// This translation with one more argument at the end.
    pub fn argument(self, component: ChatComponent) -> (r: Self)
        ensures
            r@ == self@.with_arg(component@),
    {
        let mut t = self;
        t.add_arg(component);
        t
    }
}

impl ScoreComponent {
    /// A score of `name` under `objective`, showing the live value.
    pub fn from_score<T: IntoText, U: IntoText>(name: T, objective: U) -> (r: Self)
        ensures
            r@ == (ScoreView { name: name@, objective: objective@, value: None }),
    {
        ScoreComponent { name: name.into_text(), objective: objective.into_text(), value: None }
    }

    /// Whose score is shown.
    pub fn get_name(&self) -> (r: &String)
        ensures
            r@ == self@.name,
    {
        &self.name
    }

    /// Replaces the name.
    pub fn set_name<T: IntoText>(&mut self, name: T)
        ensures
            final(self)@ == old(self)@.with_name(name@),
    {
        self.name = name.into_text();
    }

    /// This score with the name replaced.
    pub fn name<T: IntoText>(self, name: T) -> (r: Self)
        ensures
            r@ == self@.with_name(name@),
    {
        let mut s = self;
        s.set_name(name);
        s
    }

    /// The objective the score is read from.
    pub fn get_objective(&self) -> (r: &String)
        ensures
            r@ == self@.objective,
    {
        &self.objective
    }

    /// Replaces the objective.
    pub fn set_objective<T: IntoText>(&mut self, objective: T)
        ensures
            final(self)@ == old(self)@.with_objective(objective@),
    {
        self.objective = objective.into_text();
    }

    /// This score with the objective replaced.
    pub fn objective<T: IntoText>(self, objective: T) -> (r: Self)
        ensures
            r@ == self@.with_objective(objective@),
    {
        let mut s = self;
        s.set_objective(objective);
        s
    }

    /// The value shown in place of the live score, if one is set.
    pub fn get_value(&self) -> (r: Option<&String>)
        ensures
            text_of(r) == self@.value,
    {
        borrowed_text(&self.value)
    }

    /// Sets the value shown in place of the live score; `None` goes back to
    /// the live score.
    pub fn set_value<T: IntoText>(&mut self, value: Option<T>)
        ensures
            final(self)@ == old(self)@.with_value(text_of(value)),
    {
        self.value = owned_text(value);
    }

    /// This score with the shown value set or cleared.
    pub fn value<T: IntoText>(self, value: Option<T>) -> (r: Self)
        ensures
            r@ == self@.with_value(text_of(value)),
    {
        let mut s = self;
        s.set_value(value);
        s
    }
}

impl SelectorComponent {
    /// A selector component with the given selector.
    pub fn from_selector<T: IntoText>(selector: T) -> (r: Self)
        ensures
            r@ == (SelectorView { selector: selector@ }),
    {
        SelectorComponent { selector: selector.into_text() }
    }

    /// The selector.
    pub fn get_selector(&self) -> (r: &String)
        ensures
            r@ == self@.selector,
    {
        &self.selector
    }

    /// Replaces the selector.
    pub fn set_selector<T: IntoText>(&mut self, selector: T)
        ensures
            final(self)@ == (SelectorView { selector: selector@ }),
    {
        self.selector = selector.into_text();
    }

    /// This component with the selector replaced.
    pub fn selector<T: IntoText>(self, selector: T) -> (r: Self)
        ensures
            r@ == (SelectorView { selector: selector@ }),
    {
        let mut s = self;
        s.set_selector(selector);
        s
    }
}

impl KeybindComponent {
    /// A keybind component with the given binding name.
    pub fn from_keybind<T: IntoText>(keybind: T) -> (r: Self)
        ensures
            r@ == (KeybindView { keybind: keybind@ }),
    {
        KeybindComponent { keybind: keybind.into_text() }
    }

    /// The binding name.
    pub fn get_keybind(&self) -> (r: &String)
        ensures
            r@ == self@.keybind,
    {
        &self.keybind
    }

    /// Replaces the binding name.
    pub fn set_keybind<T: IntoText>(&mut self, keybind: T)
        ensures
            final(self)@ == (KeybindView { keybind: keybind@ }),
    {
        self.keybind = keybind.into_text();
    }

    /// This component with the binding name replaced.
    pub fn keybind<T: IntoText>(self, keybind: T) -> (r: Self)
        ensures
            r@ == (KeybindView { keybind: keybind@ }),
    {
        let mut k = self;
        k.set_keybind(keybind);
        k
    }
}

} // verus!
