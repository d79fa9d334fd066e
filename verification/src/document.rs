//! The element structure of a reply: a root element and its children.

use crate::decimal::{ascii_at, ascii_len};
use crate::xml::{token_views, Token, XmlToken};
use vstd::prelude::*;
use vstd::string::*;

verus! {

/// A child of the root. `text` is what it holds where it holds text only,
/// and `None` where an element stands inside it.
#[derive(Clone, Debug, PartialEq, Eq)]
pub struct Element {
    pub name: String,
    pub text: Option<String>,
}

/// A reply's root element with its children in order.
#[derive(Clone, Debug, PartialEq, Eq)]
pub struct Document {
    pub root: String,
    pub children: Vec<Element>,
}

pub struct ElementView {
    pub name: Seq<char>,
    pub text: Option<Seq<char>>,
}

pub struct DocumentView {
    pub root: Seq<char>,
    pub children: Seq<ElementView>,
}

impl View for Element {
    type V = ElementView;

    open spec fn view(&self) -> ElementView {
        ElementView {
            name: self.name@,
            text: match self.text {
                Some(text) => Some(text@),
                None => None,
            },
        }
    }
}

/// The views of a list of elements, in order.
pub open spec fn element_views(elements: Seq<Element>) -> Seq<ElementView> {
    elements.map_values(|e: Element| e@)
}

/// The views of a list of names, in order.
pub open spec fn name_views(names: Seq<String>) -> Seq<Seq<char>> {
    names.map_values(|n: String| n@)
}

impl View for Document {
    type V = DocumentView;

    open spec fn view(&self) -> DocumentView {
        DocumentView { root: self.root@, children: element_views(self.children@) }
    }
}

pub open spec fn is_space(c: char) -> bool {
    c == ' ' || c == '\t' || c == '\n' || c == '\r'
}

/// Whether a text holds nothing but white space.
pub open spec fn is_blank(text: Seq<char>) -> bool {
    forall|i: int| 0 <= i < text.len() ==> is_space(#[trigger] text[i])
}

/// Where the reading of a document stands between two tokens.
pub struct Walk {
    /// The names of the elements that are open, the root first.
    pub open: Seq<Seq<char>>,
    /// The children of the root that are closed.
    pub children: Seq<ElementView>,
    /// The text of the child that is open, as far as it was read.
    pub text: Seq<char>,
    /// Whether no element stood inside the child that is open.
    pub plain: bool,
}

pub enum Step {
    Reading(Walk),
    Finished(DocumentView),
    Malformed,
}

/// What one token does to the reading.
///
/// Before the root only white space may stand. A start tag opens an element;
/// an end tag must name the element that was opened last and closes it.
/// A child of the root gathers the text that stands directly inside it, and
/// counts as holding text only if no element stands inside it. The root's end
/// tag finishes the document.
pub open spec fn advance(walk: Walk, token: Token) -> Step {
    let depth = walk.open.len();
    match token {
        Token::Open(name) => Step::Reading(
            Walk {
                open: walk.open.push(name),
                children: walk.children,
                text: if depth == 1 {
                    Seq::empty()
                } else {
                    walk.text
                },
                plain: depth == 1 || (depth == 0 && walk.plain),
            },
        ),
        Token::Leaf(name) => if depth == 0 {
            Step::Finished(DocumentView { root: name, children: Seq::empty() })
        } else if depth == 1 {
            Step::Reading(
                Walk {
                    children: walk.children.push(ElementView { name, text: Some(Seq::empty()) }),
                    ..walk
                },
            )
        } else {
            Step::Reading(Walk { plain: false, ..walk })
        },
        Token::Close(name) => if depth == 0 || walk.open.last() != name {
            Step::Malformed
        } else if depth == 1 {
            Step::Finished(DocumentView { root: name, children: walk.children })
        } else if depth == 2 {
            Step::Reading(
                Walk {
                    open: walk.open.drop_last(),
                    children: walk.children.push(
                        ElementView {
                            name,
                            text: if walk.plain {
                                Some(walk.text)
                            } else {
                                None
                            },
                        },
                    ),
                    ..walk
                },
            )
        } else {
            Step::Reading(Walk { open: walk.open.drop_last(), ..walk })
        },
        Token::Text(text) => if depth == 0 {
            if is_blank(text) {
                Step::Reading(walk)
            } else {
                Step::Malformed
            }
        } else if depth == 2 {
            Step::Reading(Walk { text: walk.text + text, ..walk })
        } else {
            Step::Reading(walk)
        },
    }
}

/// The reading before the first token.
pub open spec fn start() -> Walk {
    Walk { open: Seq::empty(), children: Seq::empty(), text: Seq::empty(), plain: true }
}

/// The document that the reading arrives at from `walk` over `tokens`, if
/// the root is closed before the tokens end and nothing is malformed. What
/// follows the root is not looked at.
pub open spec fn walk_from(walk: Walk, tokens: Seq<Token>) -> Option<DocumentView>
    decreases tokens.len(),
{
    if tokens.len() == 0 {
        None
    } else {
        match advance(walk, tokens[0]) {
            Step::Reading(next) => walk_from(next, tokens.drop_first()),
            Step::Finished(document) => Some(document),
            Step::Malformed => None,
        }
    }
}

/// The document that a run of tokens holds.
pub open spec fn document(tokens: Seq<Token>) -> Option<DocumentView> {
    walk_from(start(), tokens)
}

/// Whether a text holds nothing but white space.
pub fn blank(text: &str) -> (r: bool)
    ensures
        r == is_blank(text@),
{
    if !text.is_ascii() {
        proof {
            let i = choose|i: int| 0 <= i < text@.len() && !('\0' <= #[trigger] text@[i] <= '\u{7f}');
            assert(!is_space(text@[i]));
        }
        return false;
    }
    let n = ascii_len(text);
    let mut i: usize = 0;
    while i < n
        invariant
            text.is_ascii(),
            n == text@.len(),
            i <= n,
            forall|k: int| 0 <= k < i ==> is_space(#[trigger] text@[k]),
        decreases n - i,
    {
        let b = ascii_at(text, i);
        if !(b == 32 || b == 9 || b == 10 || b == 13) {
            assert(!is_space(text@[i as int]));
            return false;
        }
        i += 1;
    }
    true
}

/// Reads the root element and its children from a run of tokens.
pub fn read_document(tokens: &Vec<XmlToken>) -> (r: Option<Document>)
    ensures
        match r {
            Some(found) => document(token_views(tokens@)) == Some(found@),
            None => document(token_views(tokens@)) is None,
        },
{
    let mut open: Vec<String> = Vec::new();
    let mut children: Vec<Element> = Vec::new();
    let mut text: String = String::new();
    let mut plain: bool = true;
    let mut i: usize = 0;
    let ghost all = token_views(tokens@);
    assert(all.skip(0) =~= all);
    assert(name_views(open@) =~= Seq::<Seq<char>>::empty());
    assert(element_views(children@) =~= Seq::<ElementView>::empty());
    while i < tokens.len()
        invariant
            i <= tokens.len(),
            all == token_views(tokens@),
            document(all) == walk_from(
                Walk {
                    open: name_views(open@),
                    children: element_views(children@),
                    text: text@,
                    plain,
                },
                all.skip(i as int),
            ),
        decreases tokens.len() - i,
    {
        let ghost walk = Walk {
            open: name_views(open@),
            children: element_views(children@),
            text: text@,
            plain,
        };
        let ghost old_open = name_views(open@);
        let ghost old_children = element_views(children@);
        proof {
            assert(all.skip(i as int)[0] == tokens@[i as int]@);
            assert(all.skip(i as int).drop_first() =~= all.skip(i + 1));
        }
        let depth = open.len();
        match &tokens[i] {
            XmlToken::Open(name) => {
                if depth == 1 {
                    text = String::new();
                    plain = true;
                } else if depth >= 2 {
                    plain = false;
                }
                open.push(name.clone());
                assert(name_views(open@) =~= old_open.push(name@));
            },
            XmlToken::Leaf(name) => {
                if depth == 0 {
                    let found = Document { root: name.clone(), children: Vec::new() };
                    assert(found@.children =~= Seq::<ElementView>::empty());
                    return Some(found);
                } else if depth == 1 {
                    let child = Element { name: name.clone(), text: Some(String::new()) };
                    children.push(child);
                    assert(element_views(children@) =~= old_children.push(
                        ElementView { name: name@, text: Some(Seq::empty()) },
                    ));
                } else {
                    plain = false;
                }
            },
            XmlToken::Close(name) => {
                if depth == 0 {
                    return None;
                }
                assert(old_open.last() == open@[depth - 1]@);
                if !(open[depth - 1] == *name) {
                    return None;
                }
                if depth == 1 {
                    return Some(Document { root: name.clone(), children });
                }
                open.pop();
                assert(name_views(open@) =~= old_open.drop_last());
                if depth == 2 {
                    let held = if plain {
                        Some(text.clone())
                    } else {
                        None
                    };
                    children.push(Element { name: name.clone(), text: held });
                    assert(element_views(children@) =~= old_children.push(
                        ElementView {
                            name: name@,
                            text: if plain {
                                Some(text@)
                            } else {
                                None
                            },
                        },
                    ));
                }
            },
            XmlToken::Text(piece) => {
                if depth == 0 {
                    if !blank(piece.as_str()) {
                        return None;
                    }
                } else if depth == 2 {
                    text.append(piece.as_str());
                }
            },
        }
        i += 1;
    }
    None
}

} // verus!
