//! Topic names as text: a name is a list of levels with `/` between them.
use vstd::prelude::*;

verus! {

/// The text of each string of a list.
pub open spec fn texts(strings: Seq<String>) -> Seq<Seq<char>> {
    strings.map_values(|s: String| s@)
}

/// Whether a text can be one level of a topic name: it holds no `/`.
pub open spec fn is_level(text: Seq<char>) -> bool {
    !text.contains('/')
}

/// Whether every text of a list can be one level.
pub open spec fn are_levels(levels: Seq<Seq<char>>) -> bool {
    forall|i: int| 0 <= i < levels.len() ==> is_level(#[trigger] levels[i])
}

/// The levels of a topic name: the pieces between its `/` characters.
pub open spec fn split(name: Seq<char>) -> Seq<Seq<char>>
    decreases name.len(),
{
    if name.len() == 0 {
        seq![Seq::empty()]
    } else {
        let before = split(name.drop_last());
        if name.last() == '/' {
            before.push(Seq::empty())
        } else {
            before.drop_last().push(before.last().push(name.last()))
        }
    }
}

/// The topic name that a list of levels spells: the levels with `/` between them.
pub open spec fn join(levels: Seq<Seq<char>>) -> Seq<char>
    decreases levels.len(),
{
    if levels.len() == 0 {
        Seq::empty()
    } else if levels.len() == 1 {
        levels[0]
    } else {
        join(levels.drop_last()) + seq!['/'] + levels.last()
    }
}

/// Splitting a topic name yields at least one level, each free of `/`, and
/// joining the levels again yields the name.
pub proof fn lemma_join_of_split(name: Seq<char>)
    ensures
        split(name).len() >= 1,
        are_levels(split(name)),
        join(split(name)) == name,
    decreases name.len(),
{
    if name.len() > 0 {
        let front = name.drop_last();
        let before = split(front);
        lemma_join_of_split(front);
        let levels = split(name);
        if name.last() == '/' {
            assert(levels.drop_last() =~= before);
            assert(join(levels) =~= name);
        } else {
            assert(levels.drop_last() =~= before.drop_last());
            assert(is_level(before.last()));
            assert forall|i: int| 0 <= i < levels.len() implies is_level(#[trigger] levels[i]) by {
                if i < before.len() - 1 {
                    assert(levels[i] == before[i]);
                } else if levels[i].contains('/') {
                    let k = choose|k: int| 0 <= k < levels[i].len() && levels[i][k] == '/';
                    assert(before.last()[k] == '/');
                }
            }
            if before.len() > 1 {
                assert(join(before) == join(before.drop_last()) + seq!['/'] + before.last());
            }
            assert(join(levels) =~= join(before).push(name.last()));
            assert(join(levels) =~= name);
        }
    }
}

/// Splitting what a list of levels spells yields the list again.
pub proof fn lemma_split_of_join(levels: Seq<Seq<char>>)
    requires
        levels.len() >= 1,
        are_levels(levels),
    ensures
        split(join(levels)) == levels,
    decreases levels.len(), levels.last().len(),
{
    let front = levels.drop_last();
    let last = levels.last();
    assert(is_level(last));
    assert forall|i: int| 0 <= i < front.len() implies is_level(#[trigger] front[i]) by {
        assert(front[i] == levels[i]);
    }
    if last.len() == 0 {
        assert(last =~= Seq::empty());
        if levels.len() > 1 {
            lemma_split_of_join(front);
            assert(join(levels).drop_last() =~= join(front));
            assert(join(levels).last() == '/');
        } else {
            assert(join(levels) =~= Seq::empty());
        }
        assert(split(join(levels)) =~= levels);
    } else {
        let shorter = front.push(last.drop_last());
        assert(shorter.drop_last() =~= front);
        assert(is_level(last.drop_last())) by {
            if last.drop_last().contains('/') {
                let k = choose|k: int| 0 <= k < last.len() - 1 && last.drop_last()[k] == '/';
                assert(last[k] == '/');
            }
        }
        lemma_split_of_join(shorter);
        assert(last[last.len() - 1] != '/');
        assert(join(levels) =~= join(shorter).push(last.last()));
        assert(join(levels).drop_last() =~= join(shorter));
        assert(last.drop_last().push(last.last()) =~= last);
        assert(split(join(levels)) =~= levels);
    }
}

/// Joining two lists in a row puts one `/` between what each of them spells.
pub proof fn lemma_join_of_concat(a: Seq<Seq<char>>, b: Seq<Seq<char>>)
    requires
        a.len() >= 1,
        b.len() >= 1,
    ensures
        join(a + b) == join(a) + seq!['/'] + join(b),
    decreases b.len(),
{
    let both = a + b;
    if b.len() == 1 {
        assert(both.drop_last() =~= a);
    } else {
        lemma_join_of_concat(a, b.drop_last());
        assert(both.drop_last() =~= a + b.drop_last());
        assert(join(both) =~= join(a) + seq!['/'] + join(b));
    }
}

/// The levels of a name whose last part is a text of any form: the parts
/// before it, where each is one level, and then the levels of the text.
pub proof fn lemma_split_of_last(front: Seq<Seq<char>>, text: Seq<char>)
    requires
        front.len() >= 1,
        are_levels(front),
    ensures
        split(join(front.push(text))) == front + split(text),
{
    lemma_join_of_split(text);
    lemma_join_of_concat(front, split(text));
    let levels = front + split(text);
    assert(front.push(text).drop_last() =~= front);
    assert(join(front.push(text)) == join(levels));
    assert forall|i: int| 0 <= i < levels.len() implies is_level(#[trigger] levels[i]) by {
        if i >= front.len() {
            assert(levels[i] == split(text)[i - front.len()]);
        }
    }
    lemma_split_of_join(levels);
}

/// A text that is one level has itself as its only level.
pub proof fn lemma_split_of_level(level: Seq<char>)
    requires
        is_level(level),
    ensures
        split(level) == seq![level],
{
    lemma_split_of_join(seq![level]);
}

/// Trusted: `String::push` of the standard library appends one character.
pub assume_specification[ String::push ](s: &mut String, c: char)
    ensures
        final(s)@ == old(s)@.push(c),
;

/// Splits a topic name into its levels.
pub fn split_levels(name: &str) -> (levels: Vec<String>)
    ensures
        texts(levels@) == split(name@),
{
    let mut levels: Vec<String> = Vec::new();
    let mut current = String::new();
    assert(texts(levels@).push(current@) =~= split(name@.take(0)));
    for c in it: name.chars()
        invariant
            it.seq() == name@,
            texts(levels@).push(current@) == split(name@.take(it.index() as int)),
    {
        let ghost i = it.index();
        let ghost so_far = texts(levels@).push(current@);
        assert(name@.take(i + 1).drop_last() =~= name@.take(i as int));
        if c == '/' {
            levels.push(current);
            current = String::new();
            assert(texts(levels@) =~= so_far);
        } else {
            current.push(c);
            assert(so_far.drop_last() =~= texts(levels@));
        }
        assert(texts(levels@).push(current@) =~= split(name@.take(i + 1)));
    }
    let ghost so_far = texts(levels@).push(current@);
    assert(name@.take(name@.len() as int) =~= name@);
    levels.push(current);
    assert(texts(levels@) =~= so_far);
    levels
}

/// Spells the topic name of a list of levels, from one of them on.
pub fn join_levels(levels: &Vec<String>, from: usize) -> (name: String)
    requires
        from <= levels@.len(),
    ensures
        name@ == join(texts(levels@).skip(from as int)),
{
    let mut name = String::new();
    let ghost all = texts(levels@).skip(from as int);
    for i in from..levels.len()
        invariant
            from <= levels@.len(),
            all == texts(levels@).skip(from as int),
            name@ == join(all.take(i - from)),
    {
        assert(all.take(i - from + 1).drop_last() =~= all.take(i - from));
        assert(all[i - from] == levels@[i as int]@);
        if i > from {
            name.push('/');
        }
        name.append(levels[i].as_str());
        assert(name@ =~= join(all.take(i - from + 1)));
    }
    assert(all.take(levels@.len() - from) =~= all);
    name
}

} // verus!
