use vstd::prelude::*;

verus! {

/// The largest of one or more values.
pub fn max_of(values: &Vec<i32>) -> (r: i32)
    requires
        values@.len() >= 1,
    ensures
        exists|i: int| 0 <= i < values@.len() && r == values@[i],
        forall|i: int| 0 <= i < values@.len() ==> values@[i] <= r,
{
    let mut best = values[0];
    let mut i: usize = 1;
    while i < values.len()
        invariant
            1 <= i <= values@.len(),
            exists|k: int| 0 <= k < i && best == values@[k],
            forall|k: int| 0 <= k < i ==> values@[k] <= best,
        decreases values@.len() - i,
    {
        if values[i] > best {
            best = values[i];
        }
        i = i + 1;
    }
    best
}

/// One rendered attribute: `key="value"`.
pub open spec fn spec_attr(kv: (Seq<char>, Seq<char>)) -> Seq<char> {
    kv.0 + "=\""@ + kv.1 + "\""@
}

/// The attributes rendered in order, separated by single spaces.
pub open spec fn spec_attr_list(attrs: Seq<(Seq<char>, Seq<char>)>) -> Seq<char>
    decreases attrs.len(),
{
    if attrs.len() == 0 {
        Seq::<char>::empty()
    } else if attrs.len() == 1 {
        spec_attr(attrs[0])
    } else {
        spec_attr(attrs[0]) + " "@ + spec_attr_list(attrs.skip(1))
    }
}

/// A self-closing XML element with the given attributes:
/// `<tag key="value" ... />`.
pub open spec fn spec_xml_element(tag: Seq<char>, attrs: Seq<(Seq<char>, Seq<char>)>) -> Seq<
    char,
> {
    "<"@ + tag + " "@ + spec_attr_list(attrs) + " />"@
}

/// The attribute pairs' ghost image.
pub open spec fn attr_views(attrs: Seq<(String, String)>) -> Seq<(Seq<char>, Seq<char>)> {
    attrs.map_values(|kv: (String, String)| (kv.0@, kv.1@))
}

/// Renders the attributes from position `i` on, space-separated.
fn attr_list_from(attrs: &Vec<(String, String)>, i: usize) -> (s: String)
    requires
        i <= attrs@.len(),
    ensures
        s@ == spec_attr_list(attr_views(attrs@).skip(i as int)),
    decreases attrs@.len() - i,
{
    let ghost tail = attr_views(attrs@).skip(i as int);
    if i == attrs.len() {
        proof {
            assert(tail =~= Seq::<(Seq<char>, Seq<char>)>::empty());
        }
        String::new()
    } else {
        let mut s = String::new();
        s.append(attrs[i].0.as_str());
        s.append("=\"");
        s.append(attrs[i].1.as_str());
        s.append("\"");
        proof {
            assert(tail[0] == (attrs@[i as int].0@, attrs@[i as int].1@));
            assert(s@ =~= spec_attr(tail[0]));
            assert(tail.skip(1) =~= attr_views(attrs@).skip(i + 1));
        }
        if i + 1 == attrs.len() {
            proof {
                assert(tail.len() == 1);
            }
            s
        } else {
            s.append(" ");
            let rest = attr_list_from(attrs, i + 1);
            s.append(rest.as_str());
            proof {
                assert(s@ =~= spec_attr(tail[0]) + " "@ + spec_attr_list(tail.skip(1)));
            }
            s
        }
    }
}

/// Renders a self-closing XML element, exactly as `spec_xml_element`
/// describes.
pub fn xml_element(tag: &str, attributes: &Vec<(String, String)>) -> (s: String)
    ensures
        s@ == spec_xml_element(tag@, attr_views(attributes@)),
{
    let mut s = String::new();
    s.append("<");
    s.append(tag);
    s.append(" ");
    let list = attr_list_from(attributes, 0);
    s.append(list.as_str());
    s.append(" />");
    proof {
        assert(attr_views(attributes@).skip(0) =~= attr_views(attributes@));
        assert(s@ =~= spec_xml_element(tag@, attr_views(attributes@)));
    }
    s
}

} // verus!
