//! Classification of files and the preview lines shown for the selection.
use crate::display::{display_file, file_cell};
use crate::external::{probably_valid_utf, sniffed};
use crate::file::{directory_contents, files_view, listing, File, FileView};
use crate::text::{
    copy_strings, optional_strings, optional_text, same_text, split_lines, strings_view, text_lines,
};
use vstd::prelude::*;

verus! {

/// The content category of a file.
#[derive(Debug, Copy, Clone, PartialEq, Eq, Structural)]
pub enum InfoType {
    Executable,
    Text,
    Unknown,
    Image,
    Video,
    Audio,
    Pdf,
    Link,
    Directory,
}

/// How many lines of a text file are previewed.
pub const PREVIEW_LINES: usize = 50;

/// How wide the cells of a directory preview are.
pub const PREVIEW_WIDTH: usize = 50;

/// The index of the last dot in `name`, or -1 where it has none.
pub open spec fn last_dot(name: Seq<char>) -> int
    decreases name.len(),
{
    if name.len() == 0 {
        -1
    } else if name.last() == '.' {
        name.len() - 1
    } else {
        last_dot(name.drop_last())
    }
}

/// The extension of a file name: what follows its last dot. A name without
/// a dot has none, nor has a name whose only dot is its first character,
/// nor has the name `..`.
pub open spec fn extension_of(name: Seq<char>) -> Option<Seq<char>> {
    if last_dot(name) <= 0 || name == seq!['.', '.'] {
        None
    } else {
        Some(name.skip(last_dot(name) + 1))
    }
}

/// The category that the table of extensions holds for an extension, if it
/// holds one.
pub open spec fn listed_extension(e: Seq<char>) -> Option<InfoType> {
    if e == "rs"@ || e == "md"@ || e == "txt"@ || e == "toml"@ || e == "lock"@ || e == "ini"@ {
        Some(InfoType::Text)
    } else if e == "exe"@ {
        Some(InfoType::Executable)
    } else if e == "png"@ || e == "jpg"@ || e == "jpeg"@ {
        Some(InfoType::Image)
    } else if e == "opus"@ || e == "flac"@ || e == "mp3"@ || e == "wav"@ || e == "ogg"@ {
        Some(InfoType::Audio)
    } else if e == "mp4"@ || e == "mkv"@ || e == "webm"@ {
        Some(InfoType::Video)
    } else if e == "pdf"@ {
        Some(InfoType::Pdf)
    } else {
        None
    }
}

/// The category that an extension stands for: what the table holds for
/// it, and `Unknown` for an extension that the table does not hold, or
/// for none.
pub open spec fn type_of_extension(extension: Option<Seq<char>>) -> InfoType {
    match extension {
        Some(e) => match listed_extension(e) {
            Some(t) => t,
            None => InfoType::Unknown,
        },
        None => InfoType::Unknown,
    }
}

/// The category of a file that is known by its whole name.
pub open spec fn type_of_known_name(name: Seq<char>) -> Option<InfoType> {
    if name == "README"@ || name == ".gitignore"@ {
        Some(InfoType::Text)
    } else {
        None
    }
}

/// The category that the name alone decides: what the table of extensions
/// holds where the name has an extension, and what the table of known
/// names holds where it has none. `None` where neither table decides and
/// the contents have to.
pub open spec fn type_of_name(name: Seq<char>) -> Option<InfoType> {
    match extension_of(name) {
        Some(e) => listed_extension(e),
        None => type_of_known_name(name),
    }
}

/// The four bytes that open an ELF file.
pub open spec fn elf_magic() -> Seq<u8> {
    seq![0x7Fu8, 0x45u8, 0x4Cu8, 0x46u8]
}

/// The category that the leading bytes of a file decide: the ELF magic
/// marks an executable; without it the first kilobyte is text if it is
/// well-formed UTF-8, and of unknown kind if it is not.
pub open spec fn type_of_contents(head: Seq<u8>) -> InfoType {
    if head.len() >= 4 && head.take(4) == elf_magic() {
        InfoType::Executable
    } else if vstd::utf8::valid_utf8(sniffed(head)) {
        InfoType::Text
    } else {
        InfoType::Unknown
    }
}

/// The category that what was read of a file decides: that of its leading
/// bytes, and `Unknown` where the file could not be read.
pub open spec fn type_of_head(head: Option<Seq<u8>>) -> InfoType {
    match head {
        Some(bytes) => type_of_contents(bytes),
        None => InfoType::Unknown,
    }
}

/// The category of a regular file with the given name and leading bytes:
/// the name decides where it can, and else what was read of the file.
pub open spec fn type_of_file(name: Seq<char>, head: Option<Seq<u8>>) -> InfoType {
    match type_of_name(name) {
        Some(t) => t,
        None => type_of_head(head),
    }
}

/// The leading bytes that were read of a file, as a value.
pub open spec fn head_view(head: Option<&[u8]>) -> Option<Seq<u8>> {
    match head {
        Some(bytes) => Some(bytes@),
        None => None,
    }
}

/// The contents decide wherever the name does not: a name whose extension
/// the table does not hold is classified by what was read of the file, as
/// is a name without extension that is no known name. The ELF magic then
/// gives an executable whatever follows it, and without the magic a file of
/// any length, down to none, is text exactly if what is looked at of it is
/// well-formed UTF-8.
pub proof fn lemma_contents_decide_where_the_name_does_not(name: Seq<char>, head: Seq<u8>)
    ensures
        extension_of(name) matches Some(e) && listed_extension(e) is None ==> type_of_file(
            name,
            Some(head),
        ) == type_of_contents(head),
        extension_of(name) is None && type_of_known_name(name) is None ==> type_of_file(
            name,
            Some(head),
        ) == type_of_contents(head),
        type_of_name(name) is None ==> type_of_file(name, None) == InfoType::Unknown,
        head.len() >= 4 && head.take(4) == elf_magic() ==> type_of_contents(head)
            == InfoType::Executable,
        !(head.len() >= 4 && head.take(4) == elf_magic()) ==> type_of_contents(head) == (if vstd::utf8::valid_utf8(
            sniffed(head),
        ) {
            InfoType::Text
        } else {
            InfoType::Unknown
        }),
        head.len() < 4 ==> sniffed(head) == head,
{
}

/// The name of a category, as it is shown.
pub open spec fn type_label(t: InfoType) -> Seq<char> {
    match t {
        InfoType::Executable => "Executable"@,
        InfoType::Text => "Text"@,
        InfoType::Unknown => "Unknown"@,
        InfoType::Image => "Image"@,
        InfoType::Video => "Video"@,
        InfoType::Audio => "Audio"@,
        InfoType::Pdf => "Pdf"@,
        InfoType::Link => "Link"@,
        InfoType::Directory => "Directory"@,
    }
}

/// The extension of a file name, if it has one.
pub fn extension(name: &str) -> (ext: Option<String>)
    ensures
        match ext {
            Some(e) => extension_of(name@) == Some(e@),
            None => extension_of(name@) is None,
        },
{
    let n = name.unicode_len();
    let mut dot: usize = 0;
    let mut found = false;
    let mut i: usize = 0;
    proof {
        assert(name@.take(0) =~= Seq::<char>::empty());
    }
    while i < n
        invariant
            n == name@.len(),
            i <= n,
            found ==> dot < i && last_dot(name@.take(i as int)) == dot,
            !found ==> last_dot(name@.take(i as int)) == -1,
        decreases n - i,
    {
        let ch = name.get_char(i);
        proof {
            assert(name@.take(i + 1).drop_last() =~= name@.take(i as int));
            assert(name@.take(i + 1).last() == ch);
        }
        if ch == '.' {
            dot = i;
            found = true;
        }
        i += 1;
    }
    proof {
        assert(name@.take(n as int) =~= name@);
        reveal_strlit("..");
        assert(".."@ =~= seq!['.', '.']);
    }
    if !found || dot == 0 || same_text(name, "..") {
        None
    } else {
        let ext = String::from_str(name.substring_char(dot + 1, n));
        proof {
            assert(name@.subrange(dot + 1, n as int) =~= name@.skip(dot + 1));
        }
        Some(ext)
    }
}

impl InfoType {
    /// Classifies a regular file by its name and, where the name does not
    /// decide, by its leading bytes; `head` is `None` where the file could
    /// not be read.
    pub fn new(name: &str, head: Option<&[u8]>) -> (t: Self)
        ensures
            t == type_of_file(name@, head_view(head)),
    {
        match Self::from_name(name) {
            Some(t) => t,
            None => Self::from_head(head),
        }
    }

    /// Classifies a file by its name alone, where the name decides.
    pub fn from_name(name: &str) -> (t: Option<Self>)
        ensures
            t == type_of_name(name@),
    {
        match extension(name) {
            Some(e) => Self::from_listed_extension(e.as_str()),
            None => Self::from_known_name(name),
        }
    }

    /// Looks a whole file name up in the table of known names.
    pub fn from_known_name(name: &str) -> (t: Option<Self>)
        ensures
            t == type_of_known_name(name@),
    {
        if same_text(name, "README") || same_text(name, ".gitignore") {
            Some(InfoType::Text)
        } else {
            None
        }
    }

    /// Looks an extension up in the table of extensions.
    pub fn from_listed_extension(e: &str) -> (t: Option<Self>)
        ensures
            t == listed_extension(e@),
    {
        if same_text(e, "rs") || same_text(e, "md") || same_text(e, "txt") || same_text(e, "toml")
            || same_text(e, "lock") || same_text(e, "ini") {
            Some(Self::Text)
        } else if same_text(e, "exe") {
            Some(Self::Executable)
        } else if same_text(e, "png") || same_text(e, "jpg") || same_text(e, "jpeg") {
            Some(Self::Image)
        } else if same_text(e, "opus") || same_text(e, "flac") || same_text(e, "mp3") || same_text(
            e,
            "wav",
        ) || same_text(e, "ogg") {
            Some(Self::Audio)
        } else if same_text(e, "mp4") || same_text(e, "mkv") || same_text(e, "webm") {
            Some(Self::Video)
        } else if same_text(e, "pdf") {
            Some(Self::Pdf)
        } else {
            None
        }
    }

    /// The category that an extension stands for; `Unknown` for one that
    /// the table does not hold, and for none.
    pub fn from_extension(extension: Option<&str>) -> (t: Self)
        ensures
            t == type_of_extension(
                match extension {
                    Some(e) => Some(e@),
                    None => None,
                },
            ),
    {
        match extension {
            Some(e) => match Self::from_listed_extension(e) {
                Some(t) => t,
                None => Self::Unknown,
            },
            None => Self::Unknown,
        }
    }

    /// Classifies a file by what was read of it: by its leading bytes, and
    /// as `Unknown` where it could not be read.
    pub fn from_head(head: Option<&[u8]>) -> (t: Self)
        ensures
            t == type_of_head(head_view(head)),
    {
        match head {
            Some(bytes) => Self::from_contents(bytes),
            None => Self::Unknown,
        }
    }

    /// Classifies a file by its leading bytes.
    pub fn from_contents(head: &[u8]) -> (t: Self)
        ensures
            t == type_of_contents(head@),
    {
        if head.len() >= 4 && head[0] == 0x7F && head[1] == 0x45 && head[2] == 0x4C && head[3]
            == 0x46 {
            proof {
                assert(head@.take(4) =~= elf_magic());
            }
            InfoType::Executable
        } else {
            proof {
                if head.len() >= 4 {
                    let t = head@.take(4);
                    assert(t[0] == head@[0] && t[1] == head@[1] && t[2] == head@[2] && t[3]
                        == head@[3]);
                }
            }
            if probably_valid_utf(head) {
                InfoType::Text
            } else {
                InfoType::Unknown
            }
        }
    }

    /// The name of the category, as it is shown.
    pub fn label(&self) -> (text: String)
        ensures
            text@ == type_label(*self),
    {
        match self {
            InfoType::Executable => String::from_str("Executable"),
            InfoType::Text => String::from_str("Text"),
            InfoType::Unknown => String::from_str("Unknown"),
            InfoType::Image => String::from_str("Image"),
            InfoType::Video => String::from_str("Video"),
            InfoType::Audio => String::from_str("Audio"),
            InfoType::Pdf => String::from_str("Pdf"),
            InfoType::Link => String::from_str("Link"),
            InfoType::Directory => String::from_str("Directory"),
        }
    }
}

/// The category of the selection and the lines that preview it.
pub struct Info {
    pub info_type: InfoType,
    pub info_lines: Vec<String>,
}

/// The mathematical value of an [`Info`].
pub struct InfoView {
    pub info_type: InfoType,
    pub info_lines: Seq<Seq<char>>,
}

impl View for Info {
    type V = InfoView;

    open spec fn view(&self) -> InfoView {
        InfoView { info_type: self.info_type, info_lines: strings_view(self.info_lines@) }
    }
}

/// What was gathered to preview a regular file.
pub enum Material {
    /// Nothing was gathered.
    Nothing,
    /// The text of the file.
    Text(String),
    /// The lines that the dependency lister printed, or nothing where it
    /// failed, and the size of the file as it is shown, where it is known.
    Linkage { listed: Option<Vec<String>>, size: Option<String> },
    /// The lines that the metadata probe printed, or nothing where it
    /// failed.
    Metadata { probed: Option<Vec<String>> },
}

/// The mathematical value of a [`Material`].
pub enum MaterialView {
    Nothing,
    Text(Seq<char>),
    Linkage { listed: Option<Seq<Seq<char>>>, size: Option<Seq<char>> },
    Metadata { probed: Option<Seq<Seq<char>>> },
}

impl View for Material {
    type V = MaterialView;

    open spec fn view(&self) -> MaterialView {
        match self {
            Material::Nothing => MaterialView::Nothing,
            Material::Text(text) => MaterialView::Text(text@),
            Material::Linkage { listed, size } => MaterialView::Linkage {
                listed: optional_strings(*listed),
                size: optional_text(*size),
            },
            Material::Metadata { probed } => MaterialView::Metadata {
                probed: optional_strings(*probed),
            },
        }
    }
}

/// The first of the given lines, as many as are previewed.
pub open spec fn first_lines(lines: Seq<Seq<char>>) -> Seq<Seq<char>> {
    if lines.len() <= PREVIEW_LINES {
        lines
    } else {
        lines.take(PREVIEW_LINES as int)
    }
}

/// The first lines of a text, as many as are previewed.
pub open spec fn text_preview(text: Seq<char>) -> Seq<Seq<char>> {
    first_lines(text_lines(text))
}

/// The first line of the preview of an executable: its size, where known.
pub open spec fn size_line(size: Option<Seq<char>>) -> Seq<char> {
    "Executable "@ + match size {
        Some(s) => s,
        None => "Unknown size"@,
    }
}

/// The preview of an executable: the size line, then what the dependency
/// lister printed, or one line that says that it could not be run.
pub open spec fn linkage_preview(listed: Option<Seq<Seq<char>>>, size: Option<Seq<char>>) -> Seq<
    Seq<char>,
> {
    seq![size_line(size)] + match listed {
        Some(lines) => lines,
        None => seq!["Unable to run ldd"@],
    }
}

/// The preview of audio or video: the category, then what the metadata
/// probe printed, or one line that says that it gave nothing.
pub open spec fn metadata_preview(t: InfoType, probed: Option<Seq<Seq<char>>>) -> Seq<Seq<char>> {
    seq![type_label(t)] + match probed {
        Some(lines) => lines,
        None => seq!["Unable to get metadata"@],
    }
}

/// The preview lines of a regular file of category `t` for which
/// `material` was gathered. Material that does not belong to the category
/// counts as missing.
pub open spec fn preview_lines(t: InfoType, material: MaterialView) -> Seq<Seq<char>> {
    match t {
        InfoType::Text => match material {
            MaterialView::Text(text) => text_preview(text),
            _ => Seq::empty(),
        },
        InfoType::Executable => match material {
            MaterialView::Linkage { listed, size } => linkage_preview(listed, size),
            _ => linkage_preview(None, None),
        },
        InfoType::Audio | InfoType::Video => match material {
            MaterialView::Metadata { probed } => metadata_preview(t, probed),
            _ => metadata_preview(t, None),
        },
        _ => Seq::empty(),
    }
}

/// The preview of a directory: one cell for each entry of its listing
/// without hidden entries.
pub open spec fn directory_preview(entries: Seq<FileView>) -> Seq<Seq<char>> {
    listing(entries, false).map_values(|f: FileView| file_cell(Some(f), PREVIEW_WIDTH as int))
}

/// The lines that are shown for a preview: its own, or the name of the
/// category where it has none.
pub open spec fn shown_lines(info: InfoView) -> Seq<Seq<char>> {
    if info.info_lines.len() == 0 {
        seq![type_label(info.info_type)]
    } else {
        info.info_lines
    }
}

fn tool_output(printed: Option<Vec<String>>, missing: &str) -> (lines: Vec<String>)
    ensures
        strings_view(lines@) == match optional_strings(printed) {
            Some(l) => l,
            None => seq![missing@],
        },
{
    match printed {
        Some(lines) => lines,
        None => {
            let mut lines: Vec<String> = Vec::new();
            lines.push(String::from_str(missing));
            proof {
                assert(strings_view(lines@) =~= seq![missing@]);
            }
            lines
        },
    }
}

fn with_first_line(first: String, rest: Vec<String>) -> (lines: Vec<String>)
    ensures
        strings_view(lines@) == seq![first@] + strings_view(rest@),
{
    let mut lines = rest;
    lines.insert(0, first);
    proof {
        assert(strings_view(lines@) =~= seq![first@] + strings_view(rest@));
    }
    lines
}

impl Info {
    /// The preview of a regular file of category `info_type`, made of the
    /// material that was gathered for it.
    pub fn new(info_type: InfoType, material: Material) -> (info: Self)
        ensures
            info@ == (InfoView {
                info_type,
                info_lines: preview_lines(info_type, material@),
            }),
    {
        let info_lines = match info_type {
            InfoType::Text => match material {
                Material::Text(text) => Self::text(split_lines(text.as_str())).info_lines,
                _ => Self::no_lines(),
            },
            InfoType::Executable => match material {
                Material::Linkage { listed, size } => Self::executable(listed, size).info_lines,
                _ => Self::executable(None, None).info_lines,
            },
            InfoType::Audio | InfoType::Video => match material {
                Material::Metadata { probed } => Self::media(info_type, probed).info_lines,
                _ => Self::media(info_type, None).info_lines,
            },
            _ => Self::no_lines(),
        };
        Self { info_type, info_lines }
    }

    /// The preview of a text with the given lines: the first fifty of
    /// them.
    pub fn text(lines: Vec<String>) -> (info: Self)
        ensures
            info@ == (InfoView {
                info_type: InfoType::Text,
                info_lines: first_lines(strings_view(lines@)),
            }),
    {
        let mut info_lines = lines;
        if info_lines.len() > PREVIEW_LINES {
            info_lines.truncate(PREVIEW_LINES);
        }
        proof {
            assert(strings_view(info_lines@) =~= first_lines(strings_view(lines@)));
        }
        Self { info_type: InfoType::Text, info_lines }
    }

    /// The preview of an executable: its size as it is shown, where known,
    /// and the lines that the dependency lister printed, where it did not
    /// fail.
    pub fn executable(listed: Option<Vec<String>>, size: Option<String>) -> (info: Self)
        ensures
            info@ == (InfoView {
                info_type: InfoType::Executable,
                info_lines: linkage_preview(optional_strings(listed), optional_text(size)),
            }),
    {
        let mut first = String::from_str("Executable ");
        match size {
            Some(s) => first.append(s.as_str()),
            None => first.append("Unknown size"),
        }
        let info_lines = with_first_line(first, tool_output(listed, "Unable to run ldd"));
        Self { info_type: InfoType::Executable, info_lines }
    }

    /// The preview of media of category `info_type`: the category, and the
    /// lines that the metadata probe printed, where it did not fail.
    pub fn media(info_type: InfoType, probed: Option<Vec<String>>) -> (info: Self)
        ensures
            info@ == (InfoView {
                info_type,
                info_lines: metadata_preview(info_type, optional_strings(probed)),
            }),
    {
        let info_lines = with_first_line(
            info_type.label(),
            tool_output(probed, "Unable to get metadata"),
        );
        Self { info_type, info_lines }
    }

    fn no_lines() -> (lines: Vec<String>)
        ensures
            strings_view(lines@) == Seq::<Seq<char>>::empty(),
    {
        let lines: Vec<String> = Vec::new();
        proof {
            assert(strings_view(lines@) =~= Seq::<Seq<char>>::empty());
        }
        lines
    }

    /// The preview of a symbolic link: the category alone.
    pub fn link(_link: &str) -> (info: Self)
        ensures
            info@ == (InfoView { info_type: InfoType::Link, info_lines: Seq::empty() }),
    {
        Self { info_type: InfoType::Link, info_lines: Self::no_lines() }
    }

    /// The preview of a directory whose raw entries are `entries`.
    pub fn directory(entries: &Vec<File>) -> (info: Self)
        ensures
            info@ == (InfoView {
                info_type: InfoType::Directory,
                info_lines: directory_preview(files_view(entries@)),
            }),
    {
        let directory_contents = directory_contents(entries, false);
        let mut info_lines: Vec<String> = Vec::new();
        let mut i: usize = 0;
        let ghost cells = directory_preview(files_view(entries@));
        while i < directory_contents.len()
            invariant
                i <= directory_contents.len(),
                files_view(directory_contents@) == listing(files_view(entries@), false),
                cells == directory_preview(files_view(entries@)),
                strings_view(info_lines@) == cells.take(i as int),
            decreases directory_contents.len() - i,
        {
            let ghost before = info_lines@;
            let file = &directory_contents[i];
            info_lines.push(display_file(Some(file), PREVIEW_WIDTH));
            proof {
                assert(files_view(directory_contents@)[i as int] == file@);
                assert(strings_view(info_lines@) =~= strings_view(before).push(cells[i as int]));
                assert(strings_view(info_lines@) =~= cells.take(i + 1));
            }
            i += 1;
        }
        proof {
            assert(cells.take(i as int) =~= cells);
        }
        Self { info_type: InfoType::Directory, info_lines }
    }

    /// The lines that are shown for this preview.
    pub fn lines(&self) -> (lines: Vec<String>)
        ensures
            strings_view(lines@) == shown_lines(self@),
    {
        if self.info_lines.len() == 0 {
            let mut lines: Vec<String> = Vec::new();
            lines.push(self.info_type.label());
            proof {
                assert(strings_view(lines@) =~= seq![type_label(self.info_type)]);
            }
            lines
        } else {
            copy_strings(&self.info_lines)
        }
    }

    /// A second preview with the same category and lines.
    pub fn duplicate(&self) -> (info: Self)
        ensures
            info@ == self@,
    {
        Self { info_type: self.info_type, info_lines: copy_strings(&self.info_lines) }
    }
}

} // verus!
