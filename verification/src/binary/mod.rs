//! ELF images: what the analysis reads from a binary, and where its debug info may lie.

use crate::arch::{Arch, Architecture};
use crate::search::{first_true, lemma_first_true_at};
use crate::text::hex_char;
use object::{Object, ObjectSection};
use vstd::prelude::*;
use vstd::slice::slice_subrange;
use vstd::string::{StrSliceExecFns, StringExecFns};

verus! {

/// The type of a loadable segment in an ELF program header.
pub const PT_LOAD: u32 = 1;

/// The section that holds the build id.
pub const BUILD_ID_SECTION: &'static str = ".note.gnu.build-id";

/// The number of bytes at the end of the build-id section that are the id itself.
pub const BUILD_ID_LEN: usize = 20;

/// One entry of an ELF program header table.
#[derive(Debug, Clone, Copy, PartialEq, Eq, Structural)]
pub struct ProgramHeader {
    pub p_type: u32,
    pub p_offset: u64,
    pub p_vaddr: u64,
    pub p_paddr: u64,
    pub p_memsz: u64,
}

/// One entry of an ELF symbol table. The name is missing where the string
/// table has no string at the entry's name offset.
#[derive(Debug, Clone)]
pub struct ElfSymbol {
    pub name: Option<String>,
    pub addr: u64,
    pub size: u64,
}

/// What the analysis needs of a parsed ELF file.
#[derive(Debug, Clone)]
pub struct ElfImage {
    pub machine: u16,
    pub program_headers: Vec<ProgramHeader>,
    pub symbols: Vec<ElfSymbol>,
}

/// What an object file reader tells about a file: its architecture and the
/// contents of one section, if the file has it.
#[derive(Debug, Clone)]
pub struct ObjectSummary {
    pub architecture: Architecture,
    pub section: Option<Vec<u8>>,
}

/// Why a binary could not be read.
#[derive(Debug, Clone, Copy, PartialEq, Eq, Structural)]
pub enum BinaryError {
    /// The bytes are no ELF file that `goblin` can parse.
    Elf,
    /// The bytes are no object file that `object` can parse.
    Object,
}

/// goblin's error for bytes that it cannot parse.
#[verifier::external_type_specification]
#[verifier::external_body]
pub struct ExGoblinError(goblin::error::Error);

/// object's error for bytes that it cannot parse.
#[verifier::external_type_specification]
#[verifier::external_body]
pub struct ExObjectError(object::Error);

/// What `goblin::elf::Elf::parse` makes of a file: header machine, program
/// headers and symbols; `None` where it rejects the file.
pub uninterp spec fn goblin_elf(bytes: Seq<u8>) -> Option<ElfImage>;

/// What `object::File::parse` makes of a file, with the data of the section
/// of the given name; `None` where it rejects the file.
pub uninterp spec fn object_file(bytes: Seq<u8>, section: Seq<char>) -> Option<ObjectSummary>;

/// Calls `goblin::elf::Elf::parse` and copies out the machine number, the
/// program headers and the symbols with their names from the string table.
/// The contract only says that the outcome is decided by the bytes.
#[verifier::external_body]
fn parse_elf(bytes: &[u8]) -> (r: Result<ElfImage, goblin::error::Error>)
    ensures
        r is Ok <==> goblin_elf(bytes@) is Some,
        r matches Ok(image) ==> goblin_elf(bytes@) == Some(image),
{
    let elf = goblin::elf::Elf::parse(bytes)?;
    let program_headers = elf.program_headers.iter().map(|ph| ProgramHeader {
        p_type: ph.p_type,
        p_offset: ph.p_offset,
        p_vaddr: ph.p_vaddr,
        p_paddr: ph.p_paddr,
        p_memsz: ph.p_memsz,
    }).collect();
    let symbols = elf.syms.iter().map(|sym| ElfSymbol {
        name: elf.strtab.get_at(sym.st_name).map(str::to_string),
        addr: sym.st_value,
        size: sym.st_size,
    }).collect();
    Ok(ElfImage { machine: elf.header.e_machine, program_headers, symbols })
}

/// Calls `object::File::parse`, then `architecture` and `section_by_name`
/// with `data` on the parsed file. The contract only says that the outcome
/// is decided by the bytes and the section name.
#[verifier::external_body]
fn parse_object(bytes: &[u8], section: &str) -> (r: Result<ObjectSummary, object::Error>)
    ensures
        r is Ok <==> object_file(bytes@, section@) is Some,
        r matches Ok(summary) ==> object_file(bytes@, section@) == Some(summary),
{
    let file = object::File::parse(bytes)?;
    let architecture = match file.architecture() {
        object::Architecture::Aarch64 => Architecture::Aarch64,
        object::Architecture::X86_64 => Architecture::X86_64,
        _ => Architecture::Other,
    };
    let section = file.section_by_name(section).and_then(|s| s.data().ok().map(|d| d.to_vec()));
    Ok(ObjectSummary { architecture, section })
}

/// Two lower-case hexadecimal digits for every byte.
pub open spec fn hex_lower(bytes: Seq<u8>) -> Seq<char> {
    Seq::new(
        2 * bytes.len(),
        |i: int|
            if i % 2 == 0 {
                hex_char((bytes[i / 2] / 16) as nat)
            } else {
                hex_char((bytes[i / 2] % 16) as nat)
            },
    )
}

/// Calls `hex::encode`, which writes every byte as two lower-case
/// hexadecimal digits, the high one first.
#[verifier::external_body]
fn hex_encode(bytes: &[u8]) -> (text: String)
    ensures
        text@ == hex_lower(bytes@),
{
    hex::encode(bytes)
}

/// The build id in a build-id section: its last twenty bytes in hexadecimal.
pub open spec fn build_id_of(note: Seq<u8>) -> Option<Seq<char>> {
    if note.len() < BUILD_ID_LEN {
        None
    } else {
        Some(hex_lower(note.subrange(note.len() - BUILD_ID_LEN, note.len() as int)))
    }
}

/// The place under the debug store `store` where the debug file of a build id lies.
pub open spec fn debug_path(store: Seq<char>, buildid: Seq<char>) -> Seq<char> {
    store + "/"@ + buildid.subrange(0, 2) + "/"@ + buildid.subrange(2, buildid.len() as int)
        + ".debug"@
}

/// The places where the debug file of a build id is looked for, in this
/// order. An id of fewer than two characters has none.
pub open spec fn debug_paths_of(buildid: Seq<char>) -> Seq<Seq<char>> {
    if buildid.len() < 2 {
        Seq::empty()
    } else {
        seq![
            debug_path("/usr/lib/debug/.build-id"@, buildid),
            debug_path("/usr/x86_64-linux-gnu/lib/debug/.build-id"@, buildid),
            debug_path("/usr/aarch64-linux-gnu/lib/debug/.build-id"@, buildid),
        ]
    }
}

/// The bytes are a debug file for a binary of `arch`: both readers accept
/// them, and their architecture is `arch`.
pub open spec fn usable(bytes: Seq<u8>, arch: Arch) -> bool {
    match Binary::read(object_file(bytes, BUILD_ID_SECTION@), goblin_elf(bytes)) {
        Ok((summary, _)) => Arch::from_object_spec(summary.architecture) == Some(arch),
        Err(_) => false,
    }
}

/// For each candidate, whether it could be read and is a debug file for a
/// binary of `arch`.
pub open spec fn usable_among(files: Seq<Option<Vec<u8>>>, arch: Arch) -> Seq<bool> {
    Seq::new(
        files.len(),
        |i: int|
            match files[i] {
                Some(bytes) => usable(bytes@, arch),
                None => false,
            },
    )
}

/// A binary: its bytes and what was read from them.
#[derive(Debug, Clone)]
pub struct Binary {
    raw: Vec<u8>,
    elf: ElfImage,
    summary: ObjectSummary,
}

impl Binary {
    /// The bytes of the file.
    pub closed spec fn bytes(&self) -> Seq<u8> {
        self.raw@
    }

    /// The ELF image read from the bytes.
    pub closed spec fn image(&self) -> ElfImage {
        self.elf
    }

    /// The architecture and the build-id section read from the bytes.
    pub closed spec fn object(&self) -> ObjectSummary {
        self.summary
    }

    /// Both readers accepted the bytes and gave what the binary holds.
    pub open spec fn wf(&self) -> bool {
        &&& goblin_elf(self.bytes()) == Some(self.image())
        &&& object_file(self.bytes(), BUILD_ID_SECTION@) == Some(self.object())
    }

    /// What `from_bytes` returns for a file, given what the two readers make of it.
    pub open spec fn read(
        object: Option<ObjectSummary>,
        elf: Option<ElfImage>,
    ) -> Result<(ObjectSummary, ElfImage), BinaryError> {
        match (object, elf) {
            (None, _) => Err(BinaryError::Object),
            (Some(_), None) => Err(BinaryError::Elf),
            (Some(summary), Some(image)) => Ok((summary, image)),
        }
    }

    /// Parses a binary. Fails if either reader rejects the bytes, the object
    /// reader being asked first.
    pub fn from_bytes(bytes: Vec<u8>) -> (r: Result<Binary, BinaryError>)
        ensures
            match Self::read(object_file(bytes@, BUILD_ID_SECTION@), goblin_elf(bytes@)) {
                Ok((summary, image)) => r matches Ok(binary) && binary.wf() && binary.bytes()
                    == bytes@ && binary.object() == summary && binary.image() == image,
                Err(e) => r == Err::<Binary, BinaryError>(e),
            },
    {
        let summary = match parse_object(bytes.as_slice(), BUILD_ID_SECTION) {
            Ok(summary) => summary,
            Err(_) => {
                return Err(BinaryError::Object);
            },
        };
        let elf = match parse_elf(bytes.as_slice()) {
            Ok(elf) => elf,
            Err(_) => {
                return Err(BinaryError::Elf);
            },
        };
        Ok(Binary { raw: bytes, elf, summary })
    }

    /// The build id of a build-id section: its last twenty bytes in hexadecimal.
    pub fn build_id_from_note(note: &[u8]) -> (id: Option<String>)
        ensures
            match build_id_of(note@) {
                Some(text) => id matches Some(s) && s@ == text,
                None => id is None,
            },
    {
        if note.len() < BUILD_ID_LEN {
            None
        } else {
            Some(hex_encode(slice_subrange(note, note.len() - BUILD_ID_LEN, note.len())))
        }
    }

    /// The build id, if the binary has a build-id section of at least twenty bytes.
    pub fn build_id(&self) -> (id: Option<String>)
        ensures
            match self.object().section {
                Some(note) => match build_id_of(note@) {
                    Some(text) => id matches Some(s) && s@ == text,
                    None => id is None,
                },
                None => id is None,
            },
    {
        match &self.summary.section {
            Some(note) => Self::build_id_from_note(note.as_slice()),
            None => None,
        }
    }

    /// The architecture that the object reader found.
    pub fn architecture(&self) -> (a: Architecture)
        ensures
            a == self.object().architecture,
    {
        self.summary.architecture
    }

    /// The ELF image.
    pub fn elf(&self) -> (image: &ElfImage)
        ensures
            *image == self.image(),
    {
        &self.elf
    }

    /// The bytes of the file.
    pub fn raw(&self) -> (bytes: &[u8])
        ensures
            bytes@ == self.bytes(),
    {
        self.raw.as_slice()
    }

    /// The bytes of the file.
    pub fn bin(&self) -> (bytes: &[u8])
        ensures
            bytes@ == self.bytes(),
    {
        self.raw.as_slice()
    }

    /// Whether this binary can serve as the debug file for a binary of `arch`.
    pub open spec fn fits(&self, arch: Arch) -> bool {
        match (self.object().architecture, arch) {
            (Architecture::Aarch64, Arch::ARM64) => true,
            (Architecture::X86_64, Arch::X86_64) => true,
            _ => false,
        }
    }

    /// The places where the debug file of a build id is looked for, in the
    /// order in which they are tried.
    pub fn debug_paths(buildid: &str) -> (paths: Vec<String>)
        ensures
            paths@.len() == debug_paths_of(buildid@).len(),
            forall|i: int| 0 <= i < paths@.len() ==> (#[trigger] paths@[i])@ == debug_paths_of(buildid@)[i],
    {
        let mut paths: Vec<String> = Vec::new();
        let n = buildid.unicode_len();
        if n < 2 {
            return paths;
        }
        let prefix = buildid.substring_char(0, 2);
        let suffix = buildid.substring_char(2, n);
        paths.push(Self::debug_path_in("/usr/lib/debug/.build-id", prefix, suffix));
        paths.push(Self::debug_path_in("/usr/x86_64-linux-gnu/lib/debug/.build-id", prefix, suffix));
        paths.push(
            Self::debug_path_in("/usr/aarch64-linux-gnu/lib/debug/.build-id", prefix, suffix),
        );
        paths
    }

    fn debug_path_in(store: &str, prefix: &str, suffix: &str) -> (path: String)
        ensures
            path@ == store@ + "/"@ + prefix@ + "/"@ + suffix@ + ".debug"@,
    {
        String::from_str(store).concat("/").concat(prefix).concat("/").concat(suffix).concat(
            ".debug",
        )
    }

    /// The debug file of a binary of `arch`, chosen among what was found at
    /// the `debug_paths`, in their order; `None` stands for a file that
    /// could not be read. The first candidate that is a debug file for
    /// `arch` is taken. If there is none, there is no debug file; that is no
    /// error.
    pub fn try_from_buildid(files: Vec<Option<Vec<u8>>>, arch: Arch) -> (r: Option<Binary>)
        ensures
            match first_true(usable_among(files@, arch)) {
                Some(i) => r matches Some(binary) && binary.wf() && files@[i] is Some
                    && binary.bytes() == files@[i]->0@,
                None => r is None,
            },
    {
        let ghost given = files@;
        let mut rest = files;
        let mut i: usize = 0;
        while i < rest.len()
            invariant
                given == files@,
                i <= rest@.len() == given.len(),
                forall|j: int| i <= j < given.len() ==> rest@[j] == given[j],
                forall|j: int| 0 <= j < i ==> !#[trigger] usable_among(given, arch)[j],
            decreases rest.len() - i,
        {
            let mut file: Option<Vec<u8>> = None;
            std::mem::swap(&mut file, &mut rest[i]);
            if let Some(bytes) = file {
                if let Some(binary) = Self::debug_candidate(bytes, arch) {
                    proof {
                        assert(usable_among(given, arch)[i as int]);
                        lemma_first_true_at(usable_among(given, arch), i as int);
                    }
                    return Some(binary);
                }
            }
            i += 1;
        }
        proof {
            lemma_first_true_at(usable_among(given, arch), i as int);
        }
        None
    }

    /// One candidate debug file, read from one of the `debug_paths`. It is
    /// taken if both readers accept it and it is for the architecture `arch`.
    pub fn debug_candidate(bytes: Vec<u8>, arch: Arch) -> (r: Option<Binary>)
        ensures
            match Self::read(object_file(bytes@, BUILD_ID_SECTION@), goblin_elf(bytes@)) {
                Ok((summary, image)) => if Arch::from_object_spec(summary.architecture) == Some(
                    arch,
                ) {
                    r matches Some(binary) && binary.wf() && binary.bytes() == bytes@
                        && binary.object() == summary && binary.image() == image
                } else {
                    r is None
                },
                Err(_) => r is None,
            },
    {
        match Self::from_bytes(bytes) {
            Ok(binary) => match Arch::from_object(binary.architecture()) {
                Ok(found) => if found == arch {
                    Some(binary)
                } else {
                    None
                },
                Err(_) => None,
            },
            Err(_) => None,
        }
    }
}

} // verus!
