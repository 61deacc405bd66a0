//! Application bundles: finding the bundle that a path lies in, and reading
//! its identifier.
use vstd::prelude::*;

use crate::text::{
    characters, decode_lossy, find_from, first_at, text_of, utf8_lossy,
};

verus! {

/// The byte between the components of a path.
pub const SEPARATOR: u8 = 47;

/// The bytes from `from` to `to` are a component of the path: they hold no
/// separator and reach from one separator or end to the next.
pub open spec fn is_component(path: Seq<u8>, from: int, to: int) -> bool {
    &&& 0 <= from < to <= path.len()
    &&& forall|i: int| from <= i < to ==> path[i] != SEPARATOR
    &&& from > 0 ==> path[from - 1] == SEPARATOR
    &&& to < path.len() ==> path[to] == SEPARATOR
}

/// A name with the extension `app`: it ends in `.app` and has something before that.
pub open spec fn is_bundle_name(name: Seq<u8>) -> bool {
    &&& name.len() > 4
    &&& name[name.len() - 4] == 46
    &&& name[name.len() - 3] == 97
    &&& name[name.len() - 2] == 112
    &&& name[name.len() - 1] == 112
}

/// The component is a single dot behind others, which stands for nothing.
pub open spec fn is_idle(path: Seq<u8>, from: int, to: int) -> bool {
    from > 0 && to == from + 1 && path[from] == 46
}

/// The component that ends at `to` is the name of a bundle.
pub open spec fn bundle_ends_at(path: Seq<u8>, to: int) -> bool {
    exists|from: int|
        #[trigger] is_component(path, from, to) && is_bundle_name(path.subrange(from, to))
}

/// Some component behind `at` stands for something.
pub open spec fn goes_on_behind(path: Seq<u8>, at: int) -> bool {
    exists|from: int, to: int|
        at <= from && #[trigger] is_component(path, from, to) && !is_idle(path, from, to)
}

/// `bundle` is the innermost bundle that `path` names or lies in: the path as
/// it is where it names a bundle itself, else the path up to the end of the
/// last component that is the name of a bundle.
pub open spec fn is_bundle_of(path: Seq<u8>, bundle: Seq<u8>) -> bool {
    exists|to: int|
        {
            &&& #[trigger] bundle_ends_at(path, to)
            &&& forall|other: int| other > to ==> !#[trigger] bundle_ends_at(path, other)
            &&& bundle == if goes_on_behind(path, to) {
                path.take(to)
            } else {
                path
            }
        }
}

/// The path names no bundle and lies in none.
pub open spec fn has_no_bundle(path: Seq<u8>) -> bool {
    forall|to: int| !#[trigger] bundle_ends_at(path, to)
}

/// The bundle that a path names or lies in.
pub fn find_app_bundle(path: &[u8]) -> (bundle: Option<Vec<u8>>)
    ensures
        match bundle {
            Some(bundle) => is_bundle_of(path@, bundle@),
            None => has_no_bundle(path@),
        },
{
    let total: usize = path.len();
    let mut end: usize = total;
    let mut inside: bool = false;
    while end > 0
        invariant
            total == path@.len(),
            end <= total,
            forall|from: int, to: int| #[trigger]
                is_component(path@, from, to) ==> to <= end || from >= end,
            forall|from: int, to: int| #[trigger]
                is_component(path@, from, to) && to > end ==> !is_bundle_name(
                    path@.subrange(from, to),
                ),
            inside == goes_on_behind(path@, end as int),
        decreases end,
    {
        if path[end - 1] == SEPARATOR {
            assert forall|from: int, to: int| #[trigger]
                is_component(path@, from, to) implies to <= end - 1 || from >= end - 1 by {
                if to > end - 1 && from < end - 1 {
                    assert(path@[end - 1] != SEPARATOR);
                }
            }
            assert forall|from: int, to: int| #[trigger]
                is_component(path@, from, to) && to > end - 1 implies to > end by {
                assert(path@[to - 1] != SEPARATOR);
            }
            assert(inside == goes_on_behind(path@, end - 1)) by {
                if goes_on_behind(path@, end - 1) {
                    let (from, to) = choose|from: int, to: int|
                        end - 1 <= from && #[trigger] is_component(path@, from, to) && !is_idle(
                            path@,
                            from,
                            to,
                        );
                    assert(path@[from] != SEPARATOR);
                    assert(end <= from);
                }
                if goes_on_behind(path@, end as int) {
                    let (from, to) = choose|from: int, to: int|
                        end <= from && #[trigger] is_component(path@, from, to) && !is_idle(
                            path@,
                            from,
                            to,
                        );
                    assert(end - 1 <= from);
                }
            }
            end = end - 1;
        } else {
            let mut start: usize = end - 1;
            while start > 0 && path[start - 1] != SEPARATOR
                invariant
                    start < end <= total,
                    total == path@.len(),
                    forall|i: int| start <= i < end ==> path@[i] != SEPARATOR,
                decreases start,
            {
                start = start - 1;
            }
            proof {
                if end < total && path@[end as int] != SEPARATOR {
                    component_around(path@, end as int);
                    let (from, to) = choose|from: int, to: int|
                        from <= end < to && #[trigger] is_component(path@, from, to);
                    assert(from >= end);
                    assert(path@[end - 1] == SEPARATOR);
                }
                assert(is_component(path@, start as int, end as int));
            }
            if end - start > 4 && path[end - 4] == 46 && path[end - 3] == 97 && path[end - 2] == 112
                && path[end - 1] == 112 {
                proof {
                    assert(is_bundle_name(path@.subrange(start as int, end as int)));
                    assert(bundle_ends_at(path@, end as int));
                    assert forall|other: int| other > end implies !#[trigger] bundle_ends_at(
                        path@,
                        other,
                    ) by {}
                }
                let kept: usize = if inside {
                    end
                } else {
                    total
                };
                let piece = vstd::slice::slice_subrange(path, 0, kept);
                let bundle: Vec<u8> = vstd::slice::slice_to_vec(piece);
                assert(bundle@ =~= if inside {
                    path@.take(end as int)
                } else {
                    path@
                });
                return Some(bundle);
            }
            assert(!is_bundle_name(path@.subrange(start as int, end as int)));
            let ghost before = end as int;
            let idle: bool = start > 0 && end == start + 1 && path[start] == 46;
            proof {
                assert forall|from: int, to: int| #[trigger]
                    is_component(path@, from, to) && to > start implies (from == start && to
                    == before) || from >= before by {
                    one_component(path@, start as int, before, from, to);
                }
                assert(goes_on_behind(path@, start as int) == (inside || !idle)) by {
                    if inside {
                        let (from, to) = choose|from: int, to: int|
                            before <= from && #[trigger] is_component(path@, from, to) && !is_idle(
                                path@,
                                from,
                                to,
                            );
                        assert(start <= from);
                    }
                    if goes_on_behind(path@, start as int) && !inside {
                        let (from, to) = choose|from: int, to: int|
                            start <= from && #[trigger] is_component(path@, from, to) && !is_idle(
                                path@,
                                from,
                                to,
                            );
                        assert(to > start);
                    }
                }
            }
            inside = inside || !idle;
            end = start;
        }
    }
    assert forall|to: int| !#[trigger] bundle_ends_at(path@, to) by {
        if bundle_ends_at(path@, to) {
            let from = choose|from: int|
                #[trigger] is_component(path@, from, to) && is_bundle_name(
                    path@.subrange(from, to),
                );
            assert(to > end);
        }
    }
    None
}

/// A byte that is no separator lies in a component.
proof fn component_around(path: Seq<u8>, at: int)
    requires
        0 <= at < path.len(),
        path[at] != SEPARATOR,
    ensures
        exists|from: int, to: int| from <= at < to && #[trigger] is_component(path, from, to),
{
    let from = component_start(path, at);
    let to = component_end(path, at);
    assert(is_component(path, from, to));
}

proof fn component_start(path: Seq<u8>, at: int) -> (from: int)
    requires
        0 <= at < path.len(),
        path[at] != SEPARATOR,
    ensures
        0 <= from <= at,
        forall|i: int| from <= i <= at ==> path[i] != SEPARATOR,
        from > 0 ==> path[from - 1] == SEPARATOR,
    decreases at,
{
    if at == 0 || path[at - 1] == SEPARATOR {
        at
    } else {
        component_start(path, at - 1)
    }
}

proof fn component_end(path: Seq<u8>, at: int) -> (to: int)
    requires
        0 <= at < path.len(),
        path[at] != SEPARATOR,
    ensures
        at < to <= path.len(),
        forall|i: int| at <= i < to ==> path[i] != SEPARATOR,
        to < path.len() ==> path[to] == SEPARATOR,
    decreases path.len() - at,
{
    if at + 1 == path.len() || path[at + 1] == SEPARATOR {
        at + 1
    } else {
        component_end(path, at + 1)
    }
}

/// Two components are the same or lie apart.
proof fn one_component(path: Seq<u8>, from: int, to: int, other_from: int, other_to: int)
    requires
        is_component(path, from, to),
        is_component(path, other_from, other_to),
        other_to > from,
    ensures
        (other_from == from && other_to == to) || other_from >= to,
{
    if other_from < to {
        if other_from < from {
            assert(path[from - 1] == SEPARATOR);
        }
        if other_from > from {
            assert(path[other_from - 1] == SEPARATOR);
        }
        if other_to < to {
            assert(path[other_to] == SEPARATOR);
        }
        if other_to > to {
            assert(path[to] == SEPARATOR);
        }
    }
}

/// A path has one bundle at most, and it is the start of the path.
pub proof fn bundle_is_unique(path: Seq<u8>, a: Seq<u8>, b: Seq<u8>)
    requires
        is_bundle_of(path, a),
        is_bundle_of(path, b),
    ensures
        a == b,
        a.is_prefix_of(path),
        !has_no_bundle(path),
{
    let to = choose|to: int|
        {
            &&& #[trigger] bundle_ends_at(path, to)
            &&& forall|other: int| other > to ==> !#[trigger] bundle_ends_at(path, other)
            &&& a == if goes_on_behind(path, to) {
                path.take(to)
            } else {
                path
            }
        };
    let other = choose|other: int|
        {
            &&& #[trigger] bundle_ends_at(path, other)
            &&& forall|third: int| third > other ==> !#[trigger] bundle_ends_at(path, third)
            &&& b == if goes_on_behind(path, other) {
                path.take(other)
            } else {
                path
            }
        };
    assert(to == other);
    assert(path.subrange(0, a.len() as int) =~= a);
}

/// The components of the start of a path that ends with a component.
proof fn components_of_start(path: Seq<u8>, end: int, from: int, to: int)
    requires
        0 < end <= path.len(),
        path[end - 1] != SEPARATOR,
        end < path.len() ==> path[end] == SEPARATOR,
    ensures
        is_component(path.take(end), from, to) <==> is_component(path, from, to) && to <= end,
        0 <= from <= to <= end ==> path.take(end).subrange(from, to) == path.subrange(from, to),
{
    let start = path.take(end);
    if is_component(start, from, to) {
        assert forall|i: int| from <= i < to implies path[i] != SEPARATOR by {
            assert(start[i] == path[i]);
        }
        if from > 0 {
            assert(start[from - 1] == path[from - 1]);
        }
        if to < end {
            assert(start[to] == path[to]);
        }
    }
    if is_component(path, from, to) && to <= end {
        assert forall|i: int| from <= i < to implies start[i] != SEPARATOR by {}
    }
    if 0 <= from <= to <= end {
        assert(start.subrange(from, to) =~= path.subrange(from, to));
    }
}

/// The bundle of a bundle is the bundle itself.
pub proof fn a_bundle_is_its_own_bundle(path: Seq<u8>, bundle: Seq<u8>)
    requires
        is_bundle_of(path, bundle),
    ensures
        is_bundle_of(bundle, bundle),
{
    let end = choose|to: int|
        {
            &&& #[trigger] bundle_ends_at(path, to)
            &&& forall|other: int| other > to ==> !#[trigger] bundle_ends_at(path, other)
            &&& bundle == if goes_on_behind(path, to) {
                path.take(to)
            } else {
                path
            }
        };
    if goes_on_behind(path, end) {
        let from = choose|from: int|
            #[trigger] is_component(path, from, end) && is_bundle_name(path.subrange(from, end));
        components_of_start(path, end, from, end);
        assert(bundle_ends_at(bundle, end));
        assert(!goes_on_behind(bundle, end)) by {
            if goes_on_behind(bundle, end) {
                let (f, t) = choose|f: int, t: int|
                    end <= f && #[trigger] is_component(bundle, f, t) && !is_idle(bundle, f, t);
                assert(t <= bundle.len());
            }
        }
        assert forall|other: int| other > end implies !#[trigger] bundle_ends_at(
            bundle,
            other,
        ) by {
            if bundle_ends_at(bundle, other) {
                let f = choose|f: int|
                    #[trigger] is_component(bundle, f, other) && is_bundle_name(
                        bundle.subrange(f, other),
                    );
                assert(other <= bundle.len());
            }
        }
        assert(bundle =~= bundle.take(end));
    }
}

/// A path inside a bundle leads to the bundle: `inner` goes on behind `bundle`
/// and no component of it is the name of a bundle itself.
pub proof fn a_path_inside_leads_to_the_bundle(bundle: Seq<u8>, inner: Seq<u8>)
    requires
        bundle_ends_at(bundle, bundle.len() as int),
        goes_on_behind(bundle + inner, bundle.len() as int),
        inner.len() > 0,
        inner[0] == SEPARATOR,
        forall|to: int| to > bundle.len() ==> !#[trigger] bundle_ends_at(bundle + inner, to),
    ensures
        is_bundle_of(bundle + inner, bundle),
{
    let path = bundle + inner;
    let end = bundle.len() as int;
    let from = choose|from: int|
        #[trigger] is_component(bundle, from, end) && is_bundle_name(bundle.subrange(from, end));
    assert(path.take(end) =~= bundle);
    assert(path[end - 1] == bundle[end - 1]);
    assert(path[end] == inner[0]);
    components_of_start(path, end, from, end);
    assert(bundle_ends_at(path, end));
}

/// A bundle that was found: its path, and how the path is shown to a person.
pub struct Bundle {
    pub path: Vec<u8>,
    pub shown: String,
}

/// A [`Bundle`], with its path and its text as sequences.
#[verifier::ext_equal]
pub struct BundleView {
    pub path: Seq<u8>,
    pub shown: Seq<char>,
}

impl View for Bundle {
    type V = BundleView;

    open spec fn view(&self) -> BundleView {
        BundleView { path: self.path@, shown: self.shown@ }
    }
}

/// A bundle or nothing, as its view.
pub open spec fn optional_bundle(bundle: Option<Bundle>) -> Option<BundleView> {
    match bundle {
        Some(bundle) => Some(bundle@),
        None => None,
    }
}

// -------------------------------------------------------------- identifiers

/// `content` names its identifier between `from` and `to`: those are the ends
/// of the first string element behind the first key element for the identifier.
pub open spec fn names_identifier(content: Seq<char>, from: int, to: int) -> bool {
    exists|key: int, open: int|
        {
            &&& #[trigger] first_at(content, "<key>CFBundleIdentifier</key>"@, 0, key)
            &&& #[trigger] first_at(
                content,
                "<string>"@,
                key + "<key>CFBundleIdentifier</key>"@.len(),
                open,
            )
            &&& from == open + "<string>"@.len()
            &&& first_at(content, "</string>"@, from, to)
        }
}

/// The identifier that the text of an `Info.plist` gives.
pub fn bundle_id_in(content: &str) -> (id: Option<String>)
    ensures
        match id {
            Some(id) => exists|from: int, to: int| #[trigger]
                names_identifier(content@, from, to) && id@ == content@.subrange(from, to),
            None => forall|from: int, to: int| !#[trigger] names_identifier(content@, from, to),
        },
{
    let list = characters(content);
    let total: usize = list.len();
    let key_mark = characters("<key>CFBundleIdentifier</key>");
    let open_mark = characters("<string>");
    let close_mark = characters("</string>");
    let key = match find_from(&list, &key_mark, 0) {
        Some(at) => at,
        None => {
            return None;
        },
    };
    assert(key + key_mark@.len() <= total);
    let behind_key: usize = key + key_mark.len();
    let open = match find_from(&list, &open_mark, behind_key) {
        Some(at) => at,
        None => {
            return None;
        },
    };
    assert(open + open_mark@.len() <= total);
    let from: usize = open + open_mark.len();
    match find_from(&list, &close_mark, from) {
        Some(to) => {
            assert(names_identifier(content@, from as int, to as int));
            Some(text_of(&list, from, to))
        },
        None => None,
    }
}

/// The identifier that an `Info.plist` gives.
pub fn bundle_id_from_plist(content: &[u8]) -> (id: Option<String>)
    ensures
        match id {
            Some(id) => exists|from: int, to: int| #[trigger]
                names_identifier(utf8_lossy(content@), from, to) && id@ == utf8_lossy(
                    content@,
                ).subrange(from, to),
            None => forall|from: int, to: int|
                !#[trigger] names_identifier(utf8_lossy(content@), from, to),
        },
{
    let text = decode_lossy(content);
    bundle_id_in(text.as_str())
}

/// A plist names one identifier at most.
pub proof fn identifier_is_unique(content: Seq<char>, from: int, to: int, f: int, t: int)
    requires
        names_identifier(content, from, to),
        names_identifier(content, f, t),
    ensures
        from == f,
        to == t,
{
}

/// A bundle ends at a place exactly where the four bytes before it are `.app`,
/// another byte of the same name stands before those, and the name ends there.
pub proof fn where_a_bundle_ends(path: Seq<u8>, to: int)
    ensures
        bundle_ends_at(path, to) <==> {
            &&& 5 <= to <= path.len()
            &&& path[to - 4] == 46
            &&& path[to - 3] == 97
            &&& path[to - 2] == 112
            &&& path[to - 1] == 112
            &&& path[to - 5] != 47
            &&& to == path.len() || path[to] == 47
        },
{
    if bundle_ends_at(path, to) {
        let from = choose|from: int|
            #[trigger] is_component(path, from, to) && is_bundle_name(path.subrange(from, to));
        let name = path.subrange(from, to);
        assert(name[name.len() - 4] == path[to - 4]);
        assert(name[name.len() - 3] == path[to - 3]);
        assert(name[name.len() - 2] == path[to - 2]);
        assert(name[name.len() - 1] == path[to - 1]);
        assert(path[to - 5] != SEPARATOR);
    }
    if 5 <= to <= path.len() && path[to - 4] == 46 && path[to - 3] == 97 && path[to - 2] == 112
        && path[to - 1] == 112 && path[to - 5] != 47 && (to == path.len() || path[to] == 47) {
        let from = component_start(path, to - 1);
        assert(from <= to - 5);
        assert(is_component(path, from, to));
        let name = path.subrange(from, to);
        assert(name[name.len() - 4] == path[to - 4]);
        assert(name[name.len() - 3] == path[to - 3]);
        assert(name[name.len() - 2] == path[to - 2]);
        assert(name[name.len() - 1] == path[to - 1]);
        assert(is_bundle_name(name));
    }
}

/// A path goes on behind the end of a name exactly where some byte follows that
/// is no separator and no dot that stands alone.
pub proof fn where_a_path_goes_on(path: Seq<u8>, at: int)
    requires
        0 <= at <= path.len(),
        at == path.len() || path[at] == 47,
    ensures
        goes_on_behind(path, at) <==> exists|i: int|
            {
                &&& at <= i < path.len()
                &&& #[trigger] path[i] != 47
                &&& !(path[i] == 46 && i > 0 && path[i - 1] == 47 && (i + 1 == path.len() || path[i
                    + 1] == 47))
            },
{
    if goes_on_behind(path, at) {
        let (from, to) = choose|from: int, to: int|
            at <= from && #[trigger] is_component(path, from, to) && !is_idle(path, from, to);
        assert(path[from] != 47);
        if to > from + 1 {
            assert(path[from + 1] != SEPARATOR);
        }
    }
    if exists|i: int|
        {
            &&& at <= i < path.len()
            &&& #[trigger] path[i] != 47
            &&& !(path[i] == 46 && i > 0 && path[i - 1] == 47 && (i + 1 == path.len() || path[i + 1]
                == 47))
        } {
        let i = choose|i: int|
            {
                &&& at <= i < path.len()
                &&& #[trigger] path[i] != 47
                &&& !(path[i] == 46 && i > 0 && path[i - 1] == 47 && (i + 1 == path.len() || path[i
                    + 1] == 47))
            };
        component_around(path, i);
        let (from, to) = choose|from: int, to: int|
            from <= i < to && #[trigger] is_component(path, from, to);
        if from < at {
            assert(path[at] != SEPARATOR);
        }
        assert(!is_idle(path, from, to));
    }
}

/// The bundle of a path is decided by the last place at which one ends: the path
/// up to there where it goes on behind it, else the path as it is. A path has no
/// bundle exactly where none ends anywhere.
pub proof fn the_innermost_bundle_is_found(path: Seq<u8>, bundle: Seq<u8>, to: int)
    ensures
        bundle_ends_at(path, to) && (forall|other: int|
            other > to ==> !#[trigger] bundle_ends_at(path, other)) ==> {
            &&& goes_on_behind(path, to) ==> (is_bundle_of(path, bundle) <==> bundle == path.take(
                to,
            ))
            &&& !goes_on_behind(path, to) ==> (is_bundle_of(path, bundle) <==> bundle == path)
            &&& !has_no_bundle(path)
        },
        has_no_bundle(path) <==> forall|other: int| !#[trigger] bundle_ends_at(path, other),
        has_no_bundle(path) ==> !is_bundle_of(path, bundle),
{
    if bundle_ends_at(path, to) && (forall|other: int|
        other > to ==> !#[trigger] bundle_ends_at(path, other)) && is_bundle_of(path, bundle) {
        let end = choose|end: int|
            {
                &&& #[trigger] bundle_ends_at(path, end)
                &&& forall|other: int| other > end ==> !#[trigger] bundle_ends_at(path, other)
                &&& bundle == if goes_on_behind(path, end) {
                    path.take(end)
                } else {
                    path
                }
            };
        assert(end == to);
    }
}

/// A bundle is viewed with its path and how it is shown, and nothing as nothing.
pub proof fn bundles_are_viewed_as_they_are(bundle: Bundle)
    ensures
        bundle@.path == bundle.path@,
        bundle@.shown == bundle.shown@,
        optional_bundle(Some(bundle)) == Some(bundle@),
        optional_bundle(None) is None,
{
}

/// The identifier stands between the ends of the first string behind the first
/// key for it; the key mark has 29 characters, and that of a string 8.
pub proof fn where_an_identifier_stands(content: Seq<char>, from: int, to: int)
    ensures
        names_identifier(content, from, to) <==> exists|key: int|
            {
                &&& #[trigger] first_at(content, "<key>CFBundleIdentifier</key>"@, 0, key)
                &&& first_at(content, "<string>"@, key + 29, from - 8)
                &&& first_at(content, "</string>"@, from, to)
            },
{
    reveal_strlit("<key>CFBundleIdentifier</key>");
    reveal_strlit("<string>");
    assert("<key>CFBundleIdentifier</key>"@.len() == 29);
    assert("<string>"@.len() == 8);
    if names_identifier(content, from, to) {
        let (key, open) = choose|key: int, open: int|
            {
                &&& #[trigger] first_at(content, "<key>CFBundleIdentifier</key>"@, 0, key)
                &&& #[trigger] first_at(
                    content,
                    "<string>"@,
                    key + "<key>CFBundleIdentifier</key>"@.len(),
                    open,
                )
                &&& from == open + "<string>"@.len()
                &&& first_at(content, "</string>"@, from, to)
            };
        assert(open == from - 8);
    }
    if exists|key: int|
        {
            &&& #[trigger] first_at(content, "<key>CFBundleIdentifier</key>"@, 0, key)
            &&& first_at(content, "<string>"@, key + 29, from - 8)
            &&& first_at(content, "</string>"@, from, to)
        } {
        let key = choose|key: int|
            {
                &&& #[trigger] first_at(content, "<key>CFBundleIdentifier</key>"@, 0, key)
                &&& first_at(content, "<string>"@, key + 29, from - 8)
                &&& first_at(content, "</string>"@, from, to)
            };
        assert(first_at(
            content,
            "<string>"@,
            key + "<key>CFBundleIdentifier</key>"@.len(),
            from - 8,
        ));
    }
}

/// An identifier that holds no mark of its own is found where a plist gives it,
/// provided that nothing before it holds one of the marks.
pub proof fn a_given_identifier_is_named(content: Seq<char>, key: int, open: int, id: Seq<char>)
    requires
        first_at(content, "<key>CFBundleIdentifier</key>"@, 0, key),
        first_at(content, "<string>"@, key + 29, open),
        first_at(content, "</string>"@, open + 8, open + 8 + id.len()),
        content.subrange(open + 8, open + 8 + id.len()) == id,
    ensures
        names_identifier(content, open + 8, open + 8 + id.len()),
{
    where_an_identifier_stands(content, open + 8, open + 8 + id.len());
}

/// A path gives a bundle exactly where a name with the extension ends in it
/// somewhere, and the bundle is the start of the path.
pub proof fn a_bundle_is_found_where_one_ends(path: &[u8], bundle: Option<Vec<u8>>)
    requires
        call_ensures(find_app_bundle, (path,), bundle),
    ensures
        bundle is Some <==> exists|to: int| #[trigger] bundle_ends_at(path@, to),
        bundle matches Some(found) ==> is_bundle_of(path@, found@) && found@.is_prefix_of(path@),
{
    if let Some(found) = bundle {
        bundle_is_unique(path@, found@, found@);
    }
}

} // verus!
