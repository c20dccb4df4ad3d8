//! The text of an address: a prefix, groups of four symbols, and the block size.

use vstd::prelude::*;
use vstd::string::StringExecFns;

use crate::block::IpBlock;

verus! {

/// The symbols that a group is made of: the digits and the lower-case letters `a` to `f`.
pub open spec fn is_symbol(c: char) -> bool {
    ('0' <= c && c <= '9') || ('a' <= c && c <= 'f')
}

/// A group: exactly four symbols.
pub open spec fn is_hextet(text: Seq<char>) -> bool {
    &&& text.len() == 4
    &&& forall|i: int| 0 <= i < 4 ==> is_symbol(#[trigger] text[i])
}

/// The sixteen symbols in the order in which a rotator keeps them.
pub open spec fn alphabet() -> Seq<char> {
    seq!['1', '2', '3', '4', '5', '6', '7', '8', '9', '0', 'a', 'b', 'c', 'd', 'e', 'f']
}

/// The symbols as texts of one symbol each, which is how a rotator holds them.
pub open spec fn symbol_texts() -> Seq<Seq<char>> {
    Seq::new(alphabet().len(), |i: int| seq![alphabet()[i]])
}

/// The texts that a sequence of strings holds, in the same order.
pub open spec fn texts(strings: Seq<String>) -> Seq<Seq<char>> {
    Seq::new(strings.len(), |i: int| strings[i]@)
}

/// The groups one after the other, each behind a colon.
pub open spec fn joined(groups: Seq<Seq<char>>) -> Seq<char>
    decreases groups.len(),
{
    if groups.len() == 0 {
        Seq::empty()
    } else {
        joined(groups.drop_last()) + seq![':'] + groups.last()
    }
}

/// The host that a prefix and groups name: the prefix, and the groups behind a colon each.
pub open spec fn host_text(prefix: Seq<char>, groups: Seq<Seq<char>>) -> Seq<char> {
    prefix + joined(groups)
}

/// The address that a prefix and groups make in a block: the host, a slash
/// and the block size.
pub open spec fn address_text(prefix: Seq<char>, groups: Seq<Seq<char>>, block: IpBlock) -> Seq<
    char,
> {
    host_text(prefix, groups) + seq!['/'] + block.suffix_text()
}

/// The five places that a group takes in an address, the groups counted
/// from 0 behind the prefix.
pub open spec fn group_of(text: Seq<char>, prefix: Seq<char>, index: int) -> Seq<char> {
    text.subrange(prefix.len() + 5 * index, prefix.len() + 5 * index + 5)
}

/// An address of a block under a prefix: behind the prefix it has as many
/// groups as the block asks for, each of four symbols, and then the block size.
pub open spec fn is_address(text: Seq<char>, prefix: Seq<char>, block: IpBlock) -> bool {
    exists|groups: Seq<Seq<char>>|
        {
            &&& groups.len() == block.spec_groups()
            &&& forall|i: int| 0 <= i < groups.len() ==> is_hextet(#[trigger] groups[i])
            &&& text == address_text(prefix, groups, block)
        }
}

/// The symbols of the alphabet, each as a string of its own.
pub fn symbols() -> (symbols: Vec<String>)
    ensures
        texts(symbols@) == symbol_texts(),
{
    let mut symbols: Vec<String> = Vec::new();
    symbols.push("1".to_owned());
    symbols.push("2".to_owned());
    symbols.push("3".to_owned());
    symbols.push("4".to_owned());
    symbols.push("5".to_owned());
    symbols.push("6".to_owned());
    symbols.push("7".to_owned());
    symbols.push("8".to_owned());
    symbols.push("9".to_owned());
    symbols.push("0".to_owned());
    symbols.push("a".to_owned());
    symbols.push("b".to_owned());
    symbols.push("c".to_owned());
    symbols.push("d".to_owned());
    symbols.push("e".to_owned());
    symbols.push("f".to_owned());
    proof {
        reveal_strlit("1");
        reveal_strlit("2");
        reveal_strlit("3");
        reveal_strlit("4");
        reveal_strlit("5");
        reveal_strlit("6");
        reveal_strlit("7");
        reveal_strlit("8");
        reveal_strlit("9");
        reveal_strlit("0");
        reveal_strlit("a");
        reveal_strlit("b");
        reveal_strlit("c");
        reveal_strlit("d");
        reveal_strlit("e");
        reveal_strlit("f");
        assert forall|i: int| 0 <= i < 16 implies #[trigger] texts(symbols@)[i]
            =~= symbol_texts()[i] by {}
    }
    symbols
}

/// The alphabet holds the symbols, all of them and nothing else, and none twice.
pub proof fn lemma_alphabet_is_the_symbols()
    ensures
        alphabet().len() == 16,
        alphabet().no_duplicates(),
        forall|c: char| is_symbol(c) <==> alphabet().contains(c),
{
    assert forall|c: char| is_symbol(c) implies alphabet().contains(c) by {
        let at: int = if c == '0' {
            9
        } else if c <= '9' {
            c as int - '1' as int
        } else {
            c as int - 'a' as int + 10
        };
        assert(alphabet()[at] == c);
    }
}

/// Every text of the alphabet is one symbol.
pub proof fn lemma_symbol_texts()
    ensures
        symbol_texts().len() == 16,
        forall|i: int|
            0 <= i < 16 ==> (#[trigger] symbol_texts()[i]).len() == 1 && is_symbol(
                symbol_texts()[i][0],
            ),
{
}

/// Writes four symbols one behind the other.
pub fn join_symbols(first: &str, second: &str, third: &str, fourth: &str) -> (joined: String)
    ensures
        joined@ == first@ + second@ + third@ + fourth@,
{
    let mut joined = String::from_str(first);
    joined.append(second);
    joined.append(third);
    joined.append(fourth);
    joined
}

/// Writes the host that the prefix and the groups name, without a block size.
pub fn compose_host(prefix: &str, hextets: &Vec<String>) -> (address: String)
    ensures
        address@ == host_text(prefix@, texts(hextets@)),
{
    let mut address = String::from_str(prefix);
    let mut i: usize = 0;
    while i < hextets.len()
        invariant
            i <= hextets.len(),
            address@ == prefix@ + joined(texts(hextets@).take(i as int)),
        decreases hextets.len() - i,
    {
        proof {
            reveal_strlit(":");
            let done = texts(hextets@).take(i + 1);
            assert(done.drop_last() =~= texts(hextets@).take(i as int));
        }
        address.append(":");
        address.append(hextets[i].as_str());
        i += 1;
    }
    assert(texts(hextets@).take(i as int) =~= texts(hextets@));
    address
}

/// Writes the address that the prefix and the groups make in the block.
pub fn compose_address(prefix: &str, hextets: &Vec<String>, block: IpBlock) -> (address: String)
    ensures
        address@ == address_text(prefix@, texts(hextets@), block),
{
    let mut address = compose_host(prefix, hextets);
    proof {
        reveal_strlit("/");
    }
    address.append("/");
    address.append(block.suffix());
    address
}

/// Groups of four symbols take five places each when they are joined: a
/// colon, and behind it the group.
proof fn lemma_joined_layout(groups: Seq<Seq<char>>)
    requires
        forall|i: int| 0 <= i < groups.len() ==> is_hextet(#[trigger] groups[i]),
    ensures
        joined(groups).len() == 5 * groups.len(),
        forall|k: int|
            0 <= k < groups.len() ==> #[trigger] group_of(joined(groups), Seq::empty(), k)
                == seq![':'] + groups[k],
    decreases groups.len(),
{
    if groups.len() > 0 {
        let front = groups.drop_last();
        let whole = joined(groups);
        lemma_joined_layout(front);
        assert forall|k: int| 0 <= k < groups.len() implies #[trigger] group_of(
            whole,
            Seq::empty(),
            k,
        ) == seq![':'] + groups[k] by {
            if k < front.len() {
                assert(group_of(whole, Seq::empty(), k) =~= group_of(
                    joined(front),
                    Seq::empty(),
                    k,
                ));
            }
        }
    }
}

/// How an address is laid out. It is longer than its prefix by five places
/// for each group and three for the block size. It begins with the prefix.
/// Each group is a colon and four symbols. Behind the groups stand a slash
/// and the block size.
pub proof fn lemma_address_layout(text: Seq<char>, prefix: Seq<char>, block: IpBlock)
    requires
        is_address(text, prefix, block),
    ensures
        text.len() == prefix.len() + 5 * block.spec_groups() + 3,
        text.subrange(0, prefix.len() as int) == prefix,
        forall|k: int|
            #![trigger group_of(text, prefix, k)]
            0 <= k < block.spec_groups() ==> {
                &&& group_of(text, prefix, k)[0] == ':'
                &&& is_hextet(group_of(text, prefix, k).skip(1))
            },
        text.subrange(text.len() - 3, text.len() as int) == seq!['/'] + block.suffix_text(),
{
    let groups = choose|groups: Seq<Seq<char>>|
        {
            &&& groups.len() == block.spec_groups()
            &&& forall|i: int| 0 <= i < groups.len() ==> is_hextet(#[trigger] groups[i])
            &&& text == address_text(prefix, groups, block)
        };
    lemma_joined_layout(groups);
    let middle = joined(groups);
    assert forall|k: int|
        #![trigger group_of(text, prefix, k)]
        0 <= k < block.spec_groups() implies {
        &&& group_of(text, prefix, k)[0] == ':'
        &&& is_hextet(group_of(text, prefix, k).skip(1))
    } by {
        assert(group_of(text, prefix, k) =~= group_of(middle, Seq::empty(), k));
    }
}

} // verus!
