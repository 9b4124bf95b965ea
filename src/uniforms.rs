use vstd::prelude::*;

verus! {

/// Location of `name` among `entries`: that of the first entry with that name
pub open spec fn lookup(entries: Seq<(Seq<char>, i32)>, name: Seq<char>) -> Option<i32>
    decreases entries.len(),
{
    if entries.len() == 0 {
        None
    } else if entries[0].0 == name {
        Some(entries[0].1)
    } else {
        lookup(entries.drop_first(), name)
    }
}

/// Uniform locations of a linked program, by name
pub struct UniformTable {
    pub entries: Vec<(String, i32)>,
}

impl UniformTable {
    /// Names and locations
    pub open spec fn view_entries(&self) -> Seq<(Seq<char>, i32)> {
        self.entries@.map_values(|e: (String, i32)| (e.0@, e.1))
    }

    pub fn new() -> (r: UniformTable)
        ensures
            r.view_entries().len() == 0,
    {
        UniformTable { entries: Vec::new() }
    }

    /// Records the location that linking gave to `name`; a negative location
    /// means the program does not declare it, and nothing is recorded
    pub fn insert_found(&mut self, name: &str, location: i32)
        ensures
            location >= 0 ==> final(self).view_entries() == old(self).view_entries().push(
                (name@, location),
            ),
            location < 0 ==> final(self).view_entries() == old(self).view_entries(),
    {
        if location >= 0 {
            self.entries.push((name.to_owned(), location));
            assert(self.view_entries() =~= old(self).view_entries().push((name@, location)));
        }
    }

    /// Location of `name`, if the program declares it
    pub fn location(&self, name: &str) -> (r: Option<i32>)
        ensures
            r == lookup(self.view_entries(), name@),
    {
        let key = name.to_owned();
        let ghost all = self.view_entries();
        let n = self.entries.len();
        let mut i: usize = 0;
        assert(all.subrange(0, n as int) =~= all);
        while i < n
            invariant
                n == self.entries@.len(),
                all == self.view_entries(),
                key@ == name@,
                i <= n,
                lookup(all, name@) == lookup(all.subrange(i as int, n as int), name@),
            decreases n - i,
        {
            let ghost rest = all.subrange(i as int, n as int);
            assert(rest[0] == all[i as int]);
            assert(rest.drop_first() =~= all.subrange(i + 1, n as int));
            if self.entries[i].0 == key {
                return Some(self.entries[i].1);
            }
            i += 1;
        }
        None
    }
}

} // verus!
