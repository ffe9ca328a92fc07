use vstd::prelude::*;
use vstd::utf8::encode_utf8;

verus! {

/// Why an element could not be appended to a `StringArray`.
#[derive(Debug, Clone, Copy, PartialEq, Eq, Structural)]
pub enum StringArrayError {
    /// The element holds a nul byte.
    Nul,
    /// The array would hold more than `u32::MAX` elements.
    NumberElements,
    /// The element with its terminating nul would exceed `u32::MAX` bytes.
    ElementSize,
    /// All elements with their terminating nuls would exceed `u32::MAX` bytes.
    CumulativeSize,
}

/// The UTF-8 bytes of a string.
pub open spec fn bytes_of(s: Seq<char>) -> Seq<u8> {
    encode_utf8(s)
}

/// The bytes that the elements take when each is stored nul-terminated.
pub open spec fn cumulative_size(elems: Seq<Seq<char>>) -> nat
    decreases elems.len(),
{
    if elems.len() == 0 {
        0
    } else {
        cumulative_size(elems.drop_last()) + bytes_of(elems.last()).len() + 1
    }
}

/// The error with which appending `elem` to `elems` fails, if any.
pub open spec fn push_error(elems: Seq<Seq<char>>, elem: Seq<char>) -> Option<StringArrayError> {
    let n = bytes_of(elem).len();
    if bytes_of(elem).contains(0u8) {
        Some(StringArrayError::Nul)
    } else if elems.len() + 1 > u32::MAX {
        Some(StringArrayError::NumberElements)
    } else if n + 1 > u32::MAX {
        Some(StringArrayError::ElementSize)
    } else if cumulative_size(elems) + n + 1 > u32::MAX {
        Some(StringArrayError::CumulativeSize)
    } else {
        None
    }
}

/// An element holding a nul byte is refused, whatever the array holds.
pub proof fn nul_element_refused(elems: Seq<Seq<char>>, elem: Seq<char>)
    requires
        bytes_of(elem).contains(0u8),
    ensures
        push_error(elems, elem) == Some(StringArrayError::Nul),
{
}

/// An append-only sequence of strings that can be handed to a guest as an
/// array of nul-terminated byte strings whose counts fit in `u32`.
pub struct StringArray {
    elems: Vec<String>,
    size: usize,
}

impl View for StringArray {
    type V = Seq<Seq<char>>;

    closed spec fn view(&self) -> Seq<Seq<char>> {
        self.elems@.map_values(|s: String| s@)
    }
}

impl StringArray {
    /// The running size matches the elements, and every count fits in `u32`.
    pub closed spec fn wf(&self) -> bool {
        &&& self.size == cumulative_size(self@)
        &&& self.size <= u32::MAX
        &&& self.elems@.len() <= u32::MAX
    }

    pub fn new() -> (r: StringArray)
        ensures
            r.wf(),
            r@ == Seq::<Seq<char>>::empty(),
    {
        let r = StringArray { elems: Vec::new(), size: 0 };
        assert(r@ =~= Seq::<Seq<char>>::empty());
        r
    }

    /// Appends `elem`, or leaves the array as it was and reports why not.
    pub fn push(&mut self, elem: String) -> (r: Result<(), StringArrayError>)
        requires
            old(self).wf(),
        ensures
            final(self).wf(),
            match push_error(old(self)@, elem@) {
                Some(e) => r == Err::<(), StringArrayError>(e) && final(self)@ == old(self)@,
                None => r is Ok && final(self)@ == old(self)@.push(elem@),
            },
    {
        let bytes = elem.as_str().as_bytes();
        let mut i: usize = 0;
        while i < bytes.len()
            invariant
                bytes@ == bytes_of(elem@),
                self.wf(),
                i <= bytes@.len(),
                forall|j: int| 0 <= j < i ==> bytes@[j] != 0u8,
            decreases bytes@.len() - i,
        {
            if bytes[i] == 0u8 {
                return Err(StringArrayError::Nul);
            }
            i = i + 1;
        }
        let n = bytes.len();
        if self.elems.len() >= u32::MAX as usize {
            return Err(StringArrayError::NumberElements);
        }
        if n >= u32::MAX as usize {
            return Err(StringArrayError::ElementSize);
        }
        if n >= u32::MAX as usize - self.size {
            return Err(StringArrayError::CumulativeSize);
        }
        let ghost before = self@;
        self.elems.push(elem);
        self.size = self.size + n + 1;
        proof {
            assert(self@ =~= before.push(elem@));
            assert(self@.drop_last() =~= before);
        }
        Ok(())
    }

    /// How many elements the array holds.
    pub fn number_elements(&self) -> (r: u32)
        requires
            self.wf(),
        ensures
            r == self@.len(),
    {
        self.elems.len() as u32
    }

    /// The bytes the elements take, each stored nul-terminated.
    pub fn cumulative_size(&self) -> (r: u32)
        requires
            self.wf(),
        ensures
            r == cumulative_size(self@),
    {
        self.size as u32
    }

    /// The element at `index`.
    pub fn get(&self, index: usize) -> (r: &String)
        requires
            index < self@.len(),
        ensures
            r@ == self@[index as int],
    {
        &self.elems[index]
    }
}

} // verus!
