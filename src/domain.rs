//! Cookie scoping: the parent domain shared by a host's subdomains.
//!
//! The parent domain is taken as the last two labels of the host. This is an
//! approximation of the registrable domain: it is wrong for multi-label public
//! suffixes such as `co.uk`, which would need a public-suffix list.

use vstd::prelude::*;

use crate::text::rfind_char;

verus! {

/// The labels of a host name: the parts between its dots, from left to right.
pub open spec fn labels(host: Seq<char>) -> Seq<Seq<char>>
    decreases host.len(),
{
    if host.len() == 0 {
        seq![Seq::empty()]
    } else {
        let init = labels(host.drop_last());
        if host.last() == '.' {
            init.push(Seq::empty())
        } else {
            init.update(init.len() - 1, init.last().push(host.last()))
        }
    }
}

pub proof fn lemma_labels_nonempty(host: Seq<char>)
    ensures
        labels(host).len() >= 1,
    decreases host.len(),
{
    if host.len() > 0 {
        lemma_labels_nonempty(host.drop_last());
    }
}

/// A host without a dot is a single label.
pub proof fn lemma_labels_single(host: Seq<char>)
    requires
        !host.contains('.'),
    ensures
        labels(host) == seq![host],
    decreases host.len(),
{
    if host.len() > 0 {
        let init = host.drop_last();
        assert(!init.contains('.')) by {
            if init.contains('.') {
                let k = choose|k: int| 0 <= k < init.len() && #[trigger] init[k] == '.';
                assert(host[k] == '.');
            }
        }
        lemma_labels_single(init);
        assert(host.last() != '.');
        assert(init.push(host.last()) =~= host);
        assert(labels(host) =~= seq![host]);
    } else {
        assert(host =~= Seq::<char>::empty());
    }
}

/// The labels of `head.tail`, where `tail` holds no dot, are those of `head`
/// followed by `tail`.
pub proof fn lemma_labels_last(head: Seq<char>, tail: Seq<char>)
    requires
        !tail.contains('.'),
    ensures
        labels(head + seq!['.'] + tail) == labels(head).push(tail),
    decreases tail.len(),
{
    let host = head + seq!['.'] + tail;
    if tail.len() == 0 {
        assert(host.drop_last() =~= head);
        assert(tail =~= Seq::<char>::empty());
    } else {
        let init = tail.drop_last();
        assert(!init.contains('.')) by {
            if init.contains('.') {
                let k = choose|k: int| 0 <= k < init.len() && #[trigger] init[k] == '.';
                assert(tail[k] == '.');
            }
        }
        lemma_labels_last(head, init);
        assert(host.drop_last() =~= head + seq!['.'] + init);
        assert(tail.last() != '.');
        assert(init.push(tail.last()) =~= tail);
        assert(labels(host) =~= labels(head).push(tail));
    }
}

/// The parent domain of a host: the last two labels joined by `.`, or the host
/// itself where it has two labels or fewer.
pub open spec fn parent_domain_of(host: Seq<char>) -> Seq<char> {
    let l = labels(host);
    if l.len() <= 2 {
        host
    } else {
        l[l.len() - 2] + seq!['.'] + l[l.len() - 1]
    }
}

/// Reduces a host to its parent domain, so that one cookie covers all its
/// subdomains: `a.b.example.club` gives `example.club`, while `example.club`
/// and `localhost` are kept.
pub fn parent_domain(host: &str) -> (r: String)
    ensures
        r@ == parent_domain_of(host@),
        labels(host@).len() <= 2 ==> r@ == host@,
        labels(host@).len() >= 3 ==> r@ == labels(host@)[labels(host@).len() - 2] + seq!['.']
            + labels(host@)[labels(host@).len() - 1],
{
    let ghost h = host@;
    match rfind_char(host, '.') {
        None => {
            proof {
                lemma_labels_single(h);
            }
            host.to_owned()
        },
        Some(last_dot) => {
            let head = host.substring_char(0, last_dot);
            let ghost tail = h.skip(last_dot + 1);
            proof {
                assert(h =~= head@ + seq!['.'] + tail);
                lemma_labels_last(head@, tail);
            }
            match rfind_char(head, '.') {
                None => {
                    proof {
                        lemma_labels_single(head@);
                    }
                    host.to_owned()
                },
                Some(dot) => {
                    let n = host.unicode_len();
                    let ghost front = head@.take(dot as int);
                    let ghost middle = head@.skip(dot + 1);
                    proof {
                        assert(head@ =~= front + seq!['.'] + middle);
                        lemma_labels_last(front, middle);
                        lemma_labels_nonempty(front);
                        let l = labels(h);
                        assert(l =~= labels(front).push(middle).push(tail));
                        assert(h.subrange(dot + 1, n as int) =~= middle + seq!['.'] + tail);
                    }
                    host.substring_char(dot + 1, n).to_owned()
                },
            }
        },
    }
}

} // verus!
