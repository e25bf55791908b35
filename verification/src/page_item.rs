use vstd::prelude::*;
use vstd::string::StringExecFns;

verus! {

/// One entry of a rendered pagination bar.
///
/// `Page` and `CurrentPage` carry the page number they stand for (always at
/// least 1). `Ignore` marks a run of at least two omitted pages. `Prev` and
/// `Next` carry the page they would navigate to; `ReservedPrev` and
/// `ReservedNext` take their place when the control is forced on but there is
/// no page to navigate to.
#[derive(Debug, Copy, Clone, Eq, PartialEq, Structural)]
pub enum PageItem {
    Page(usize),
    CurrentPage(usize),
    Ignore,
    Prev(usize),
    Next(usize),
    ReservedPrev,
    ReservedNext,
}

/// The page number an item stands for in the bar itself: `Page` and
/// `CurrentPage` occupy a page slot; controls and ellipses do not.
pub open spec fn item_page_no(item: PageItem) -> Option<int> {
    match item {
        PageItem::Page(n) => Some(n as int),
        PageItem::CurrentPage(n) => Some(n as int),
        _ => None,
    }
}

/// The character for one decimal digit.
pub open spec fn digit_char(d: int) -> char {
    if d == 0 {
        '0'
    } else if d == 1 {
        '1'
    } else if d == 2 {
        '2'
    } else if d == 3 {
        '3'
    } else if d == 4 {
        '4'
    } else if d == 5 {
        '5'
    } else if d == 6 {
        '6'
    } else if d == 7 {
        '7'
    } else if d == 8 {
        '8'
    } else {
        '9'
    }
}

/// The decimal digits of `n`, most significant first.
pub open spec fn spec_digits(n: nat) -> Seq<char>
    decreases n,
{
    if n < 10 {
        seq![digit_char(n as int)]
    } else {
        spec_digits(n / 10) + seq![digit_char((n % 10) as int)]
    }
}

/// The diagnostic text of one item: a page's number, the current page's
/// number followed by `*`, `...` for an ellipsis, `<`/`>` for the prev/next
/// controls, and `)`/`(` for their reserved stand-ins.
pub open spec fn spec_item_text(item: PageItem) -> Seq<char> {
    match item {
        PageItem::Page(n) => spec_digits(n as nat),
        PageItem::CurrentPage(n) => spec_digits(n as nat) + seq!['*'],
        PageItem::Ignore => seq!['.', '.', '.'],
        PageItem::Next(_) => seq!['>'],
        PageItem::Prev(_) => seq!['<'],
        PageItem::ReservedPrev => seq![')'],
        PageItem::ReservedNext => seq!['('],
    }
}

/// The diagnostic text of a whole bar: the item texts joined by single
/// spaces.
pub open spec fn spec_items_text(items: Seq<PageItem>) -> Seq<char>
    decreases items.len(),
{
    if items.len() == 0 {
        Seq::empty()
    } else if items.len() == 1 {
        spec_item_text(items[0])
    } else {
        spec_items_text(items.drop_last()) + seq![' '] + spec_item_text(items.last())
    }
}

/// The one-character text of a decimal digit.
fn digit_text(d: usize) -> (r: &'static str)
    requires
        d < 10,
    ensures
        r@ == seq![digit_char(d as int)],
{
    if d == 0 {
        proof {
            reveal_strlit("0");
            assert("0"@ =~= seq!['0']);
        }
        "0"
    } else if d == 1 {
        proof {
            reveal_strlit("1");
            assert("1"@ =~= seq!['1']);
        }
        "1"
    } else if d == 2 {
        proof {
            reveal_strlit("2");
            assert("2"@ =~= seq!['2']);
        }
        "2"
    } else if d == 3 {
        proof {
            reveal_strlit("3");
            assert("3"@ =~= seq!['3']);
        }
        "3"
    } else if d == 4 {
        proof {
            reveal_strlit("4");
            assert("4"@ =~= seq!['4']);
        }
        "4"
    } else if d == 5 {
        proof {
            reveal_strlit("5");
            assert("5"@ =~= seq!['5']);
        }
        "5"
    } else if d == 6 {
        proof {
            reveal_strlit("6");
            assert("6"@ =~= seq!['6']);
        }
        "6"
    } else if d == 7 {
        proof {
            reveal_strlit("7");
            assert("7"@ =~= seq!['7']);
        }
        "7"
    } else if d == 8 {
        proof {
            reveal_strlit("8");
            assert("8"@ =~= seq!['8']);
        }
        "8"
    } else {
        proof {
            reveal_strlit("9");
            assert("9"@ =~= seq!['9']);
        }
        "9"
    }
}

/// Appends the decimal digits of `n`.
pub(crate) fn append_digits(text: &mut String, n: usize)
    ensures
        final(text)@ == old(text)@ + spec_digits(n as nat),
    decreases n,
{
    if n >= 10 {
        append_digits(text, n / 10);
    }
    text.append(digit_text(n % 10));
    proof {
        assert(text@ =~= old(text)@ + spec_digits(n as nat));
    }
}

/// Appends the diagnostic text of one item.
pub(crate) fn append_item_text(text: &mut String, item: PageItem)
    ensures
        final(text)@ == old(text)@ + spec_item_text(item),
{
    match item {
        PageItem::Page(n) => {
            append_digits(text, n);
        },
        PageItem::CurrentPage(n) => {
            append_digits(text, n);
            text.append("*");
            proof {
                reveal_strlit("*");
                assert(text@ =~= old(text)@ + spec_item_text(item));
            }
        },
        PageItem::Ignore => {
            text.append("...");
            proof {
                reveal_strlit("...");
                assert(text@ =~= old(text)@ + spec_item_text(item));
            }
        },
        PageItem::Next(_) => {
            text.append(">");
            proof {
                reveal_strlit(">");
                assert(text@ =~= old(text)@ + spec_item_text(item));
            }
        },
        PageItem::Prev(_) => {
            text.append("<");
            proof {
                reveal_strlit("<");
                assert(text@ =~= old(text)@ + spec_item_text(item));
            }
        },
        PageItem::ReservedPrev => {
            text.append(")");
            proof {
                reveal_strlit(")");
                assert(text@ =~= old(text)@ + spec_item_text(item));
            }
        },
        PageItem::ReservedNext => {
            text.append("(");
            proof {
                reveal_strlit("(");
                assert(text@ =~= old(text)@ + spec_item_text(item));
            }
        },
    }
}

} // verus!
