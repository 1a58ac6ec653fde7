use vstd::prelude::*;

use crate::text::same_text;

verus! {

/// The value that the latest entry for `key` holds, if any.
pub open spec fn lookup(entries: Seq<(String, u64)>, key: Seq<char>) -> Option<u64>
    decreases entries.len(),
{
    if entries.len() == 0 {
        None
    } else if entries.last().0@ == key {
        Some(entries.last().1)
    } else {
        lookup(entries.drop_last(), key)
    }
}

fn find_label(entries: &Vec<(String, u64)>, key: &str) -> (r: Option<u64>)
    ensures
        r == lookup(entries@, key@),
{
    let mut i = entries.len();
    assert(entries@.subrange(0, i as int) =~= entries@);
    while i > 0
        invariant
            i <= entries@.len(),
            lookup(entries@, key@) == lookup(entries@.subrange(0, i as int), key@),
        decreases i,
    {
        let ghost prefix = entries@.subrange(0, i as int);
        assert(prefix.drop_last() =~= entries@.subrange(0, i - 1));
        if same_text(entries[i - 1].0.as_str(), key) {
            return Some(entries[i - 1].1);
        }
        i = i - 1;
    }
    None
}

/// Collects the bytes of a program and of its data, with named offsets into each.
pub struct Compiler {
    data: Vec<u8>,
    program: Vec<u8>,
    data_labels: Vec<(String, u64)>,
    program_labels: Vec<(String, u64)>,
}

impl Compiler {
    pub closed spec fn data_bytes(&self) -> Seq<u8> {
        self.data@
    }

    pub closed spec fn program_bytes(&self) -> Seq<u8> {
        self.program@
    }

    /// The offset into the data that `key` names.
    pub closed spec fn data_label_of(&self, key: Seq<char>) -> Option<u64> {
        lookup(self.data_labels@, key)
    }

    /// The offset into the program that `key` names.
    pub closed spec fn program_label_of(&self, key: Seq<char>) -> Option<u64> {
        lookup(self.program_labels@, key)
    }

    pub fn new() -> (r: Self)
        ensures
            r.data_bytes() == Seq::<u8>::empty(),
            r.program_bytes() == Seq::<u8>::empty(),
            forall|k: Seq<char>| r.data_label_of(k) is None && r.program_label_of(k) is None,
    {
        Self { data: Vec::new(), program: Vec::new(), data_labels: Vec::new(), program_labels: Vec::new() }
    }

    /// Moves all of `data` to the end of the data section.
    pub fn append_data(&mut self, data: &mut Vec<u8>)
        ensures
            final(self).data_bytes() == old(self).data_bytes() + old(data)@,
            final(data)@ == Seq::<u8>::empty(),
            final(self).program_bytes() == old(self).program_bytes(),
            forall|k: Seq<char>| final(self).data_label_of(k) == old(self).data_label_of(k),
            forall|k: Seq<char>| final(self).program_label_of(k) == old(self).program_label_of(k),
    {
        self.data.append(data);
    }

    /// Moves all of `program` to the end of the program section.
    pub fn append_program(&mut self, program: &mut Vec<u8>)
        ensures
            final(self).program_bytes() == old(self).program_bytes() + old(program)@,
            final(program)@ == Seq::<u8>::empty(),
            final(self).data_bytes() == old(self).data_bytes(),
            forall|k: Seq<char>| final(self).data_label_of(k) == old(self).data_label_of(k),
            forall|k: Seq<char>| final(self).program_label_of(k) == old(self).program_label_of(k),
    {
        self.program.append(program);
    }

    /// Names the current end of the data section `key` and returns that offset.
    pub fn label_data(&mut self, key: String) -> (r: u64)
        ensures
            r == old(self).data_bytes().len(),
            final(self).data_label_of(key@) == Some(r),
            forall|k: Seq<char>| k != key@ ==> final(self).data_label_of(k) == old(self).data_label_of(k),
            final(self).data_bytes() == old(self).data_bytes(),
            final(self).program_bytes() == old(self).program_bytes(),
            forall|k: Seq<char>| final(self).program_label_of(k) == old(self).program_label_of(k),
    {
        let at = self.data.len() as u64;
        self.data_labels.push((key, at));
        assert(self.data_labels@.drop_last() =~= old(self).data_labels@);
        at
    }

    /// Names the current end of the program section `key` and returns that offset.
    pub fn label_program(&mut self, key: String) -> (r: u64)
        ensures
            r == old(self).program_bytes().len(),
            final(self).program_label_of(key@) == Some(r),
            forall|k: Seq<char>| k != key@ ==> final(self).program_label_of(k) == old(self).program_label_of(k),
            final(self).data_bytes() == old(self).data_bytes(),
            final(self).program_bytes() == old(self).program_bytes(),
            forall|k: Seq<char>| final(self).data_label_of(k) == old(self).data_label_of(k),
    {
        let at = self.program.len() as u64;
        self.program_labels.push((key, at));
        assert(self.program_labels@.drop_last() =~= old(self).program_labels@);
        at
    }

    pub fn data(&self) -> (r: &[u8])
        ensures
            r@ == self.data_bytes(),
    {
        self.data.as_slice()
    }

    pub fn program(&self) -> (r: &[u8])
        ensures
            r@ == self.program_bytes(),
    {
        self.program.as_slice()
    }

    pub fn data_label(&self, key: &str) -> (r: Option<u64>)
        ensures
            r == self.data_label_of(key@),
    {
        find_label(&self.data_labels, key)
    }

    pub fn program_label(&self, key: &str) -> (r: Option<u64>)
        ensures
            r == self.program_label_of(key@),
    {
        find_label(&self.program_labels, key)
    }
}

} // verus!
