use vstd::prelude::*;
use vstd::string::StringExecFns;

verus! {

/// The elements of `items` with ", " between them.
pub open spec fn comma_joined(items: Seq<Seq<char>>) -> Seq<char>
    decreases items.len(),
{
    if items.len() == 0 {
        Seq::empty()
    } else if items.len() == 1 {
        items[0]
    } else {
        comma_joined(items.drop_last()) + ", "@ + items.last()
    }
}

/// The elements of `items` as a list for a reader: ", " between them, but
/// " and " before the last one.
pub open spec fn humanized(items: Seq<Seq<char>>) -> Seq<char> {
    if items.len() == 0 {
        Seq::empty()
    } else if items.len() == 1 {
        items[0]
    } else {
        comma_joined(items.drop_last()) + " and "@ + items.last()
    }
}

/// The texts of `list`.
pub open spec fn texts(list: Seq<&str>) -> Seq<Seq<char>> {
    Seq::new(list.len(), |i: int| list[i]@)
}

/// Formats the elements in the given list slice into
/// a humanized list and returns it as a String.
///
/// Example: `["1", "2", "3", "4"]` will be formatted as `"1, 2, 3 and 4"`.
pub fn format_humaized_list(list: &[&str]) -> (result: String)
    ensures
        result@ == humanized(texts(list@)),
{
    let mut result = String::new();
    let n = list.len();
    if n == 0 {
        return result;
    }
    let last_index = n - 1;
    let ghost items = texts(list@);

    let mut i: usize = 0;
    while i < last_index
        invariant
            i <= last_index,
            last_index == n - 1,
            n == list@.len(),
            items == texts(list@),
            result@ == comma_joined(items.take(i as int)),
        decreases last_index - i,
    {
        if i > 0 {
            result.append(", ");
        }
        result.append(list[i]);
        proof {
            assert(items.take(i + 1).drop_last() =~= items.take(i as int));
            assert(items.take(i + 1).last() == items[i as int]);
            assert(result@ =~= comma_joined(items.take(i + 1)));
        }
        i = i + 1;
    }
    if last_index > 0 {
        result.append(" and ");
    }
    result.append(list[last_index]);
    proof {
        assert(items.take(last_index as int) =~= items.drop_last());
        assert(result@ =~= humanized(items));
    }
    return result;
}

} // verus!
