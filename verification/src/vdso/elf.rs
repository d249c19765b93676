//! How much memory a shared object takes.

use vstd::prelude::*;

verus! {

/// The number that `n` bytes at `at` stand for, the lowest byte first.
pub open spec fn le_number(image: Seq<u8>, at: int, n: nat) -> int
    decreases n,
{
    if n == 0 {
        0
    } else {
        image[at] + 256 * le_number(image, at + 1, (n - 1) as nat)
    }
}

fn read_le(image: &[u8], at: usize, n: usize) -> (value: u64)
    requires
        at + n <= 64,
        n <= 8,
        at + n <= image@.len(),
    ensures
        value == le_number(image@, at as int, n as nat),
        n <= 2 ==> value < 65536,
    decreases n,
{
    if n == 0 {
        return 0;
    }
    let rest: u64 = read_le(image, at + 1, n - 1);
    proof {
        lemma_le_bound(image@, at as int, n as nat);
        lemma_le_bound(image@, at + 1, (n - 1) as nat);
    }
    image[at] as u64 + 256 * rest
}

proof fn lemma_le_bound(image: Seq<u8>, at: int, n: nat)
    requires
        n <= 8,
    ensures
        0 <= le_number(image, at, n),
        n == 0 ==> le_number(image, at, n) == 0,
        n == 1 ==> le_number(image, at, n) < 0x100,
        n == 2 ==> le_number(image, at, n) < 0x10000,
        n == 3 ==> le_number(image, at, n) < 0x1000000,
        n == 4 ==> le_number(image, at, n) < 0x100000000,
        n == 5 ==> le_number(image, at, n) < 0x10000000000,
        n == 6 ==> le_number(image, at, n) < 0x1000000000000,
        n == 7 ==> le_number(image, at, n) < 0x100000000000000,
        n == 8 ==> le_number(image, at, n) < 0x10000000000000000,
    decreases n,
{
    if n > 0 {
        lemma_le_bound(image, at + 1, (n - 1) as nat);
    }
}

/// Whether an image begins as an ELF file does, and is long enough for the header of its
/// class.
pub open spec fn has_elf_header(image: Seq<u8>) -> bool {
    &&& image.len() >= 16
    &&& image[0] == 0x7f && image[1] == 0x45 && image[2] == 0x4c && image[3] == 0x46
    &&& (image[4] == 1 && image.len() >= 52) || (image[4] == 2 && image.len() >= 64)
}

/// Where an ELF file has its program headers, or 0.
pub open spec fn headers_at(image: Seq<u8>) -> int {
    if image[4] == 2 {
        le_number(image, 32, 8)
    } else {
        le_number(image, 28, 4)
    }
}

/// How far apart the program headers of an ELF file are, or 0.
pub open spec fn header_entry(image: Seq<u8>) -> int {
    if image[4] == 2 {
        le_number(image, 54, 2)
    } else {
        le_number(image, 42, 2)
    }
}

/// How many program headers an ELF file has.
pub open spec fn header_count(image: Seq<u8>) -> int {
    if image[4] == 2 {
        le_number(image, 56, 2)
    } else {
        le_number(image, 44, 2)
    }
}

/// Whether the program headers of an ELF file, if it has any, lie within it, are long
/// enough, and are aligned as their fields are.
pub open spec fn elf_headers_fit(image: Seq<u8>) -> bool {
    has_elf_header(image) ==> {
        let offset = headers_at(image);
        let entry = header_entry(image);
        let count = header_count(image);
        let (size, align) = if image[4] == 2 {
            (56int, 8int)
        } else {
            (32int, 4int)
        };
        offset == 0 || entry == 0 || count == 0 || {
            &&& offset + count * entry <= image.len()
            &&& entry >= size
            &&& offset % align == 0
            &&& count == 1 || entry % align == 0
        }
    }
}

/// What the program header at `at` says: whether its segment is to be loaded, the segment's
/// virtual address, and its size in memory.
pub open spec fn program_header(image: Seq<u8>, at: int) -> (bool, u64, u64) {
    if image[4] == 2 {
        (
            le_number(image, at, 4) == 1,
            le_number(image, at + 16, 8) as u64,
            le_number(image, at + 40, 8) as u64,
        )
    } else {
        (
            le_number(image, at, 4) == 1,
            le_number(image, at + 8, 4) as u64,
            le_number(image, at + 20, 4) as u64,
        )
    }
}

/// The program headers of an image, in order, or none if the image is no ELF file.
pub open spec fn program_headers(image: Seq<u8>) -> Option<Seq<(bool, u64, u64)>> {
    if !has_elf_header(image) {
        None
    } else if headers_at(image) == 0 || header_entry(image) == 0 {
        Some(Seq::empty())
    } else {
        Some(
            Seq::new(
                header_count(image) as nat,
                |i: int| program_header(image, headers_at(image) + i * header_entry(image)),
            ),
        )
    }
}

/// Says whether the program headers of an ELF file can be read.
pub fn check_elf_headers(image: &[u8]) -> (fit: bool)
    ensures
        fit == elf_headers_fit(image@),
{
    if image.len() < 16 || image[0] != 0x7f || image[1] != 0x45 || image[2] != 0x4c || image[3]
        != 0x46 {
        return true;
    }
    let wide: bool = image[4] == 2;
    if wide {
        if image.len() < 64 {
            return true;
        }
    } else if image[4] != 1 || image.len() < 52 {
        return true;
    }
    let offset: u64 = if wide {
        read_le(image, 32, 8)
    } else {
        read_le(image, 28, 4)
    };
    let entry: u64 = if wide {
        read_le(image, 54, 2)
    } else {
        read_le(image, 42, 2)
    };
    let count: u64 = if wide {
        read_le(image, 56, 2)
    } else {
        read_le(image, 44, 2)
    };
    if offset == 0 || entry == 0 || count == 0 {
        return true;
    }
    let (size, align): (u64, u64) = if wide {
        (56, 8)
    } else {
        (32, 4)
    };
    assert(0 <= count * entry < 0x100000000) by (nonlinear_arith)
        requires
            0 <= count < 65536,
            0 <= entry < 65536,
    ;
    let span: u64 = count * entry;
    let len: u64 = image.len() as u64;
    span <= len && offset <= len - span && entry >= size && offset % align == 0 && (count == 1
        || entry % align == 0)
}

/// `xmas_elf::ElfFile::new` and `xmas_elf::ElfFile::program_iter`, on a copy of the image
/// that is aligned as their reads ask (`bytemuck::pod_collect_to_vec`). The first refuses an
/// image without the magic number, without a class, or too short for the header of its
/// class; the second goes through the headers in order, of which those of
/// `xmas_elf::program::Type::Load` are to be loaded. They read numbers as the machine has
/// them, the lowest byte first, and panic on a header that lies outside the image.
#[verifier::external_body]
fn read_program_headers(image: &[u8]) -> (headers: Option<Vec<(bool, u64, u64)>>)
    requires
        elf_headers_fit(image@),
    ensures
        headers.is_some() == program_headers(image@).is_some(),
        headers matches Some(h) ==> h@ == program_headers(image@).unwrap(),
{
    let words: Vec<u64> = bytemuck::pod_collect_to_vec(image);
    let bytes: &[u8] = &bytemuck::cast_slice::<u64, u8>(&words)[..image.len()];
    let elf = xmas_elf::ElfFile::new(bytes).ok()?;
    let load = Ok(xmas_elf::program::Type::Load);
    Some(
        elf.program_iter()
            .map(|ph| (ph.get_type() == load, ph.virtual_addr(), ph.mem_size()))
            .collect(),
    )
}

/// The first address of the page that holds `addr`.
pub open spec fn page_down(addr: int) -> int {
    addr - addr % 4096
}

/// The first address from `addr` on that is the first of a page.
pub open spec fn page_up(addr: int) -> int {
    page_down(addr + 4095)
}

/// The lowest page that the first `n` headers load, if they load any.
pub open spec fn load_start(headers: Seq<(bool, u64, u64)>, n: nat) -> Option<int>
    decreases n,
{
    if n == 0 {
        None
    } else {
        let before = load_start(headers, (n - 1) as nat);
        let start = page_down(headers[n - 1].1 as int);
        if !headers[n - 1].0 {
            before
        } else {
            match before {
                Some(b) => Some(
                    if b <= start {
                        b
                    } else {
                        start
                    },
                ),
                None => Some(start),
            }
        }
    }
}

/// The end of the highest page that the first `n` headers load, or 0.
pub open spec fn load_end(headers: Seq<(bool, u64, u64)>, n: nat) -> int
    decreases n,
{
    if n == 0 {
        0
    } else {
        let before = load_end(headers, (n - 1) as nat);
        let end = page_up(headers[n - 1].1 + headers[n - 1].2);
        if !headers[n - 1].0 || before >= end {
            before
        } else {
            end
        }
    }
}

/// Whether the ends of what the headers load, rounded up to a page, are addresses.
pub open spec fn loads_fit(headers: Seq<(bool, u64, u64)>) -> bool {
    forall|i: int|
        0 <= i < headers.len() && (#[trigger] headers[i]).0 ==> headers[i].1 + headers[i].2 + 4095
            <= usize::MAX
}

/// Whether the headers load something, and what they load begins at 0: its first address
/// is what every other one is relative to.
pub open spec fn loads_from_zero(headers: Seq<(bool, u64, u64)>) -> bool {
    load_start(headers, headers.len()) == Some(0int)
}

/// The memory that the headers load, in pages from 0 on.
pub fn load_span(headers: &Vec<(bool, u64, u64)>) -> (size: usize)
    requires
        loads_fit(headers@),
        loads_from_zero(headers@),
    ensures
        size == load_end(headers@, headers@.len()),
{
    let mut runtime_end: usize = 0;
    let mut i: usize = 0;
    while i < headers.len()
        invariant
            i <= headers@.len(),
            loads_fit(headers@),
            runtime_end == load_end(headers@, i as nat),
        decreases headers@.len() - i,
    {
        let (load, vaddr, mem_size): (bool, u64, u64) = headers[i];
        if load {
            assert(headers@[i as int].0);
            let last: u64 = vaddr + mem_size + 4095;
            let end: usize = (last - last % 4096) as usize;
            if runtime_end < end {
                runtime_end = end;
            }
        }
        i += 1;
    }
    runtime_end
}

/// Says whether the headers load something whose size is known: from 0 on, up to an address.
pub fn check_load_span(headers: &Vec<(bool, u64, u64)>) -> (ok: bool)
    ensures
        ok == (loads_fit(headers@) && loads_from_zero(headers@)),
{
    let mut runtime_start: Option<u64> = None;
    let mut i: usize = 0;
    while i < headers.len()
        invariant
            i <= headers@.len(),
            runtime_start.is_some() == load_start(headers@, i as nat).is_some(),
            runtime_start.is_some() ==> runtime_start.unwrap() == load_start(
                headers@,
                i as nat,
            ).unwrap(),
            forall|j: int|
                0 <= j < i && (#[trigger] headers@[j]).0 ==> headers@[j].1 + headers@[j].2 + 4095
                    <= usize::MAX,
        decreases headers@.len() - i,
    {
        let (load, vaddr, mem_size): (bool, u64, u64) = headers[i];
        if load {
            assert(headers@[i as int].0);
            if usize::MAX < 4095 || mem_size > (usize::MAX - 4095) as u64 || vaddr > (usize::MAX
                - 4095) as u64 - mem_size {
                return false;
            }
            let start: u64 = vaddr - vaddr % 4096;
            runtime_start = match runtime_start {
                Some(before) => if before <= start {
                    Some(before)
                } else {
                    Some(start)
                },
                None => Some(start),
            };
        }
        i += 1;
    }
    match runtime_start {
        Some(start) => start == 0,
        None => false,
    }
}

/// The memory that an ELF image takes when it is loaded: the pages of its segments from 0
/// on. What the file holds besides its segments takes none.
pub fn vdso_runtime_size(image: &[u8]) -> (size: usize)
    requires
        elf_headers_fit(image@),
        program_headers(image@) matches Some(headers) && loads_fit(headers) && loads_from_zero(
            headers,
        ),
    ensures
        size == load_end(
            program_headers(image@).unwrap(),
            program_headers(image@).unwrap().len(),
        ),
{
    let headers: Vec<(bool, u64, u64)> = read_program_headers(image).unwrap();
    load_span(&headers)
}

/// The memory that an image takes when it is loaded, or none if it cannot be loaded.
pub open spec fn image_size(image: Seq<u8>) -> Option<usize> {
    if !elf_headers_fit(image) {
        None
    } else {
        match program_headers(image) {
            Some(headers) => if loads_fit(headers) && loads_from_zero(headers) {
                Some(load_end(headers, headers.len()) as usize)
            } else {
                None
            },
            None => None,
        }
    }
}

/// The memory that an image takes when it is loaded, or none if it cannot be loaded: it is
/// no ELF file, its headers lie outside of it, or what they load does not begin at 0 or
/// does not end at an address.
pub fn checked_vdso_runtime_size(image: &[u8]) -> (size: Option<usize>)
    ensures
        size == image_size(image@),
{
    if !check_elf_headers(image) {
        return None;
    }
    match read_program_headers(image) {
        Some(headers) => if check_load_span(&headers) {
            Some(vdso_runtime_size(image))
        } else {
            None
        },
        None => None,
    }
}

/// What an image takes in memory is whole pages, and holds every segment that is loaded.
pub proof fn law_runtime_size_covers_the_segments(headers: Seq<(bool, u64, u64)>, n: nat, i: int)
    requires
        n <= headers.len(),
        0 <= i < n,
    ensures
        load_end(headers, n) % 4096 == 0,
        headers[i].0 ==> headers[i].1 + headers[i].2 <= load_end(headers, n),
    decreases n,
{
    lemma_load_end_is_pages(headers, n);
    if i < n - 1 {
        law_runtime_size_covers_the_segments(headers, (n - 1) as nat, i);
    }
}

proof fn lemma_load_end_is_pages(headers: Seq<(bool, u64, u64)>, n: nat)
    ensures
        load_end(headers, n) % 4096 == 0,
    decreases n,
{
    if n > 0 {
        lemma_load_end_is_pages(headers, (n - 1) as nat);
    }
}

} // verus!
