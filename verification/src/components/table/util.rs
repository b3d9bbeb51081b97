use crate::text::join;
use vstd::prelude::*;
use vstd::string::*;

verus! {

/// The title of a page under a parent: the title, and the parent's name in
/// round brackets behind it.
pub open spec fn title_with_parent(title: Seq<char>, parent: Option<Seq<char>>) -> Seq<char> {
    match parent {
        None => title,
        Some(parent) => title + "("@ + parent + ")"@,
    }
}

pub fn format_title_with_parent(title: &str, parent: Option<&str>) -> (text: String)
    ensures
        text@ == title_with_parent(
            title@,
            match parent {
                Some(p) => Some(p@),
                None => None,
            },
        ),
{
    match parent {
        None => String::from_str(title),
        Some(parent) => {
            let mut text = join(title, "(");
            text.append(parent);
            text.append(")");
            text
        },
    }
}

} // verus!
