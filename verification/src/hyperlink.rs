//! Links that are found in the text of a line.
use crate::host::text_view;
use crate::text::byte_offset;
use vstd::prelude::*;

verus! {

/// Finds links in text. What the pattern matches is a link; its target is the format
/// with each `$name` or `${name}` replaced by what that group of the pattern matched.
/// A name without braces is the longest run of letters, digits and underscores; a
/// name that is a number is the group of that number. A pattern that is not a regular
/// expression matches nothing.
#[derive(Debug, PartialEq, Eq)]
pub struct Rule {
    pub pattern: String,
    pub format: String,
}

/// Where the `regex` crate finds a pattern in a text: the bytes where each match starts
/// and ends; `None` where the pattern is not a regular expression. How large a
/// pattern it compiles depends on the width of a machine word.
pub uninterp spec fn regex_bounds(pattern: Seq<char>, text: Seq<char>, word_bits: nat) -> Option<
    Seq<(usize, usize)>,
>;

/// The format with the groups of a match in the place of their names, where the match
/// is the first that the `regex` crate finds in the text from a byte on; `None` where
/// there is none.
pub uninterp spec fn regex_expansion(
    pattern: Seq<char>,
    format: Seq<char>,
    text: Seq<char>,
    start: nat,
    word_bits: nat,
) -> Option<Seq<char>>;

/// The view of bounds that may be absent.
pub open spec fn bounds_view(bounds: Option<Vec<(usize, usize)>>) -> Option<Seq<(usize, usize)>> {
    match bounds {
        Some(b) => Some(b@),
        None => None,
    }
}

/// Links with their targets as text.
pub open spec fn links_view(links: Seq<(usize, usize, String)>) -> Seq<
    (usize, usize, Seq<char>),
> {
    Seq::new(links.len(), |i: int| (links[i].0, links[i].1, links[i].2@))
}

/// Targets as text.
pub open spec fn targets_view(targets: Seq<Option<String>>) -> Seq<Option<Seq<char>>> {
    Seq::new(targets.len(), |i: int| text_view(targets[i]))
}

/// Calls `Regex::find_iter` of the `regex` crate, where `Regex::new` takes the pattern.
/// What it finds depends on the pattern and the text alone, and on the width of a
/// machine word; each match ends where the text does or before it.
#[verifier::external_body]
fn find_matches(pattern: &str, text: &str) -> (found: Option<Vec<(usize, usize)>>)
    ensures
        bounds_view(found) == regex_bounds(pattern@, text@, usize::BITS as nat),
        found matches Some(bounds) ==> forall|i: int|
            0 <= i < bounds@.len() ==> (#[trigger] bounds@[i]).0 <= bounds@[i].1 <= byte_offset(
                text@,
                text@.len() as int,
            ),
{
    let regex = regex::Regex::new(pattern).ok()?;
    Some(regex.find_iter(text).map(|m| (m.start(), m.end())).collect())
}

/// Calls `Captures::expand` of the `regex` crate on the match that
/// `Regex::captures_at` finds, where `Regex::new` takes the pattern. The expansion
/// depends on the arguments alone, and on the width of a machine word. `captures_at`
/// does not start after the end of the text.
#[verifier::external_body]
fn expand_at(pattern: &str, format: &str, text: &str, start: usize) -> (expansion: Option<String>)
    requires
        start <= byte_offset(text@, text@.len() as int),
    ensures
        text_view(expansion) == regex_expansion(
            pattern@,
            format@,
            text@,
            start as nat,
            usize::BITS as nat,
        ),
{
    let captures = regex::Regex::new(pattern).ok()?.captures_at(text, start)?;
    let mut target = String::new();
    captures.expand(format, &mut target);
    Some(target)
}

/// The links that the first `n` of the bounds make with their targets; bounds without
/// a target make none.
pub open spec fn paired(
    bounds: Seq<(usize, usize)>,
    targets: Seq<Option<Seq<char>>>,
    n: nat,
) -> Seq<(usize, usize, Seq<char>)>
    decreases n,
{
    if n == 0 {
        Seq::empty()
    } else {
        let before = paired(bounds, targets, (n - 1) as nat);
        match targets[n - 1] {
            Some(target) => before.push((bounds[n - 1].0, bounds[n - 1].1, target)),
            None => before,
        }
    }
}

/// The links that bounds make with their targets; bounds without a target make none.
pub fn pair_links(bounds: &Vec<(usize, usize)>, targets: &Vec<Option<String>>) -> (links: Vec<
    (usize, usize, String),
>)
    requires
        bounds@.len() == targets@.len(),
    ensures
        links_view(links@) == paired(bounds@, targets_view(targets@), bounds@.len()),
{
    let mut links: Vec<(usize, usize, String)> = Vec::new();
    let mut i: usize = 0;
    assert(links_view(links@) =~= Seq::empty());
    while i < bounds.len()
        invariant
            i <= bounds@.len() == targets@.len(),
            links_view(links@) == paired(bounds@, targets_view(targets@), i as nat),
        decreases bounds@.len() - i,
    {
        let ghost before = links_view(links@);
        assert(targets_view(targets@)[i as int] == text_view(targets@[i as int]));
        if let Some(target) = &targets[i] {
            links.push((bounds[i].0, bounds[i].1, target.clone()));
            assert(links_view(links@) =~= before.push(
                (bounds@[i as int].0, bounds@[i as int].1, target@),
            ));
        }
        i += 1;
    }
    links
}

/// The targets of the matches of a pattern.
pub open spec fn match_targets(
    bounds: Seq<(usize, usize)>,
    pattern: Seq<char>,
    format: Seq<char>,
    text: Seq<char>,
) -> Seq<Option<Seq<char>>> {
    Seq::new(
        bounds.len(),
        |i: int| regex_expansion(pattern, format, text, bounds[i].0 as nat, usize::BITS as nat),
    )
}

/// The links that one pattern and format find in a text. A pattern that is not a
/// regular expression finds none.
pub open spec fn pattern_links(pattern: Seq<char>, format: Seq<char>, text: Seq<char>) -> Seq<
    (usize, usize, Seq<char>),
> {
    match regex_bounds(pattern, text, usize::BITS as nat) {
        Some(bounds) => paired(
            bounds,
            match_targets(bounds, pattern, format, text),
            bounds.len(),
        ),
        None => Seq::empty(),
    }
}

/// The links that the rules find in a text, in the order of the rules.
pub open spec fn found_links(rules: Seq<Rule>, text: Seq<char>) -> Seq<(usize, usize, Seq<char>)>
    decreases rules.len(),
{
    if rules.len() == 0 {
        Seq::empty()
    } else {
        found_links(rules.drop_last(), text) + pattern_links(
            rules.last().pattern@,
            rules.last().format@,
            text,
        )
    }
}

impl Rule {
    /// The links that the rule finds in `text`.
    fn links_in(&self, text: &str) -> (links: Vec<(usize, usize, String)>)
        ensures
            links_view(links@) == pattern_links(self.pattern@, self.format@, text@),
    {
        let bounds = match find_matches(self.pattern.as_str(), text) {
            Some(bounds) => bounds,
            None => {
                let links: Vec<(usize, usize, String)> = Vec::new();
                assert(links_view(links@) =~= Seq::empty());
                return links;
            },
        };
        let ghost all = match_targets(bounds@, self.pattern@, self.format@, text@);
        let mut targets: Vec<Option<String>> = Vec::new();
        let mut i: usize = 0;
        while i < bounds.len()
            invariant
                i <= bounds@.len(),
                i == targets@.len(),
                all == match_targets(bounds@, self.pattern@, self.format@, text@),
                forall|j: int|
                    0 <= j < bounds@.len() ==> (#[trigger] bounds@[j]).0 <= byte_offset(
                        text@,
                        text@.len() as int,
                    ),
                forall|j: int| 0 <= j < i ==> text_view(#[trigger] targets@[j]) == all[j],
            decreases bounds@.len() - i,
        {
            targets.push(
                expand_at(self.pattern.as_str(), self.format.as_str(), text, bounds[i].0),
            );
            i += 1;
        }
        assert(targets_view(targets@) =~= all);
        pair_links(&bounds, &targets)
    }

    /// The links that the rules find in `text`, in the order of the rules.
    pub fn match_hyperlinks(text: &str, rules: &Vec<Rule>) -> (found: Vec<(usize, usize, String)>)
        ensures
            links_view(found@) == found_links(rules@, text@),
    {
        let mut found: Vec<(usize, usize, String)> = Vec::new();
        let mut i: usize = 0;
        assert(links_view(found@) =~= found_links(rules@.take(0), text@));
        while i < rules.len()
            invariant
                i <= rules@.len(),
                links_view(found@) == found_links(rules@.take(i as int), text@),
            decreases rules@.len() - i,
        {
            let ghost before = found@;
            let mut more = rules[i].links_in(text);
            let ghost added = more@;
            found.append(&mut more);
            i += 1;
            assert(rules@.take(i as int).drop_last() =~= rules@.take(i - 1));
            assert(links_view(found@) =~= links_view(before) + links_view(added));
        }
        assert(rules@.take(i as int) =~= rules@);
        found
    }
}

/// The target of the first of the links that cover the byte at `offset`.
pub open spec fn target_at(links: Seq<(usize, usize, Seq<char>)>, offset: nat) -> Option<Seq<char>>
    decreases links.len(),
{
    if links.len() == 0 {
        None
    } else if links[0].0 <= offset < links[0].1 {
        Some(links[0].2)
    } else {
        target_at(links.drop_first(), offset)
    }
}

/// The target of the first of the links that cover the byte at `offset`.
pub fn find_target(links: &Vec<(usize, usize, String)>, offset: u128) -> (target: Option<String>)
    ensures
        match target {
            Some(t) => target_at(links_view(links@), offset as nat) == Some(t@),
            None => target_at(links_view(links@), offset as nat) is None,
        },
{
    let ghost all = links_view(links@);
    let mut i: usize = 0;
    assert(all.skip(0) =~= all);
    while i < links.len()
        invariant
            i <= links@.len(),
            all == links_view(links@),
            target_at(all, offset as nat) == target_at(all.skip(i as int), offset as nat),
        decreases links@.len() - i,
    {
        assert(all.skip(i as int)[0] == all[i as int]);
        if links[i].0 as u128 <= offset && offset < links[i].1 as u128 {
            return Some(links[i].2.clone());
        }
        assert(all.skip(i as int).drop_first() =~= all.skip(i + 1));
        i += 1;
    }
    None
}

/// Whether a link covers the byte at `offset`.
pub open spec fn covers(link: (usize, usize, Seq<char>), offset: nat) -> bool {
    link.0 <= offset && offset < link.1
}

/// The target at a byte is that of the first link that covers it; there is none where no
/// link does.
pub proof fn law_target_at(links: Seq<(usize, usize, Seq<char>)>, offset: nat)
    ensures
        match target_at(links, offset) {
            Some(uri) => exists|i: int|
                #![trigger links[i]]
                0 <= i < links.len() && covers(links[i], offset) && links[i].2 == uri && (forall|
                    j: int,
                | 0 <= j < i ==> !covers(#[trigger] links[j], offset)),
            None => forall|i: int| 0 <= i < links.len() ==> !covers(#[trigger] links[i], offset),
        },
    decreases links.len(),
{
    if links.len() > 0 {
        let rest = links.drop_first();
        law_target_at(rest, offset);
        if covers(links[0], offset) {
            assert(links[0].2 == target_at(links, offset)->Some_0);
        } else {
            match target_at(rest, offset) {
                Some(uri) => {
                    let i = choose|i: int|
                        #![trigger rest[i]]
                        0 <= i < rest.len() && covers(rest[i], offset) && rest[i].2 == uri && (
                        forall|j: int| 0 <= j < i ==> !covers(#[trigger] rest[j], offset));
                    assert(links[i + 1] == rest[i]);
                    assert forall|j: int| 0 <= j < i + 1 implies !covers(
                        #[trigger] links[j],
                        offset,
                    ) by {
                        if j > 0 {
                            assert(links[j] == rest[j - 1]);
                        }
                    }
                },
                None => {
                    assert forall|i: int| 0 <= i < links.len() implies !covers(
                        #[trigger] links[i],
                        offset,
                    ) by {
                        if i > 0 {
                            assert(links[i] == rest[i - 1]);
                        }
                    }
                },
            }
        }
    }
}

/// Where every match has a target, each makes one link with it, in the order of the matches.
pub proof fn law_paired(
    bounds: Seq<(usize, usize)>,
    targets: Seq<Option<Seq<char>>>,
    n: nat,
)
    requires
        n <= bounds.len(),
        forall|i: int| 0 <= i < n ==> (#[trigger] targets[i]) is Some,
    ensures
        paired(bounds, targets, n).len() == n,
        forall|i: int|
            0 <= i < n ==> #[trigger] paired(bounds, targets, n)[i] == (
                bounds[i].0,
                bounds[i].1,
                targets[i]->Some_0,
            ),
    decreases n,
{
    if n > 0 {
        law_paired(bounds, targets, (n - 1) as nat);
        assert(targets[n - 1] is Some);
    }
}

/// Every link is made of a match and its target, and a match without a target makes none.
pub proof fn law_paired_links(
    bounds: Seq<(usize, usize)>,
    targets: Seq<Option<Seq<char>>>,
    n: nat,
)
    requires
        n <= bounds.len(),
    ensures
        forall|k: int|
            0 <= k < paired(bounds, targets, n).len() ==> exists|i: int|
                0 <= i < n && (#[trigger] targets[i]) == Some(
                    (#[trigger] paired(bounds, targets, n)[k]).2,
                ) && bounds[i] == (
                    paired(bounds, targets, n)[k].0,
                    paired(bounds, targets, n)[k].1,
                ),
        forall|i: int|
            0 <= i < n && (#[trigger] targets[i]) is Some ==> paired(bounds, targets, n).contains(
                (bounds[i].0, bounds[i].1, targets[i]->Some_0),
            ),
    decreases n,
{
    if n > 0 {
        let less = paired(bounds, targets, (n - 1) as nat);
        let all = paired(bounds, targets, n);
        law_paired_links(bounds, targets, (n - 1) as nat);
        assert forall|k: int| 0 <= k < all.len() implies exists|i: int|
            0 <= i < n && (#[trigger] targets[i]) == Some((#[trigger] all[k]).2) && bounds[i] == (
                all[k].0,
                all[k].1,
            ) by {
            if k < less.len() {
                assert(all[k] == less[k]);
            } else {
                assert(targets[n - 1] == Some(all[k].2));
            }
        }
        assert forall|i: int| 0 <= i < n && (#[trigger] targets[i]) is Some implies all.contains(
            (bounds[i].0, bounds[i].1, targets[i]->Some_0),
        ) by {
            if i < n - 1 {
                let link = (bounds[i].0, bounds[i].1, targets[i]->Some_0);
                let k = choose|k: int| 0 <= k < less.len() && less[k] == link;
                assert(all[k] == link);
            } else {
                assert(all[less.len() as int] == (bounds[i].0, bounds[i].1, targets[i]->Some_0));
            }
        }
    }
}

/// What some rules find comes before what the rules after them find.
pub proof fn law_found_in_order(first: Seq<Rule>, second: Seq<Rule>, text: Seq<char>)
    ensures
        found_links(first + second, text) == found_links(first, text) + found_links(second, text),
    decreases second.len(),
{
    if second.len() == 0 {
        assert(first + second =~= first);
        assert(found_links(first + second, text) =~= found_links(first, text) + found_links(
            second,
            text,
        ));
    } else {
        law_found_in_order(first, second.drop_last(), text);
        assert((first + second).drop_last() =~= first + second.drop_last());
        assert(found_links(first + second, text) =~= found_links(first, text) + found_links(
            second,
            text,
        ));
    }
}

/// A rule finds a link in every match of its pattern that its format makes a target of.
pub proof fn law_rule_links(rule: Rule, text: Seq<char>, bounds: Seq<(usize, usize)>, i: int)
    requires
        regex_bounds(rule.pattern@, text, usize::BITS as nat) == Some(bounds),
        0 <= i < bounds.len(),
        regex_expansion(
            rule.pattern@,
            rule.format@,
            text,
            bounds[i].0 as nat,
            usize::BITS as nat,
        ) is Some,
    ensures
        found_links(seq![rule], text).contains(
            (
                bounds[i].0,
                bounds[i].1,
                regex_expansion(
                    rule.pattern@,
                    rule.format@,
                    text,
                    bounds[i].0 as nat,
                    usize::BITS as nat,
                )->Some_0,
            ),
        ),
{
    let targets = match_targets(bounds, rule.pattern@, rule.format@, text);
    law_paired_links(bounds, targets, bounds.len());
    assert(targets[i] is Some);
    let links = pattern_links(rule.pattern@, rule.format@, text);
    reveal_with_fuel(found_links, 2);
    assert(seq![rule].last() == rule);
    assert(seq![rule].drop_last() =~= Seq::<Rule>::empty());
    assert(found_links(seq![rule], text) =~= links);
}

/// A pattern that is not a regular expression finds nothing.
pub proof fn law_bad_pattern(rule: Rule, text: Seq<char>)
    requires
        regex_bounds(rule.pattern@, text, usize::BITS as nat) is None,
    ensures
        found_links(seq![rule], text).len() == 0,
{
    reveal_with_fuel(found_links, 2);
    assert(seq![rule].last() == rule);
    assert(seq![rule].drop_last() =~= Seq::<Rule>::empty());
}

} // verus!
