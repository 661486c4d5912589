//! The embedded table from file extensions to media types.

use vstd::prelude::*;
use crate::text::str_eq;

verus! {

/// The media type given to an extension that the table does not list.
pub const FALLBACK_MEDIA_TYPE: &'static str = "application/octet-stream";

/// The embedded table: each listed extension, in lower case and without a
/// leading dot, with its media type. Several extensions may share one type.
pub open spec fn embedded_table() -> Map<Seq<char>, Seq<char>> {
    map![
        "html"@ => "text/html"@,
        "css"@ => "text/css"@,
        "js"@ => "text/javascript"@,
        "json"@ => "application/json"@,
        "png"@ => "image/png"@,
        "jpg"@ => "image/jpeg"@,
        "jpeg"@ => "image/jpeg"@,
        "gif"@ => "image/gif"@,
        "svg"@ => "image/svg+xml"@,
        "ico"@ => "image/x-icon"@,
        "ttf"@ => "font/ttf"@,
        "woff"@ => "font/woff"@,
        "woff2"@ => "font/woff2"@,
        "eot"@ => "application/vnd.ms-fontobject"@,
        "otf"@ => "font/otf"@,
        "txt"@ => "text/plain"@,
        "pdf"@ => "application/pdf"@,
        "doc"@ => "application/msword"@,
        "docx"@ => "application/vnd.openxmlformats-officedocument.wordprocessingml.document"@,
        "xls"@ => "application/vnd.ms-excel"@,
        "xlsx"@ => "application/vnd.openxmlformats-officedocument.spreadsheetml.sheet"@,
        "ppt"@ => "application/vnd.ms-powerpoint"@,
        "pptx"@ => "application/vnd.openxmlformats-officedocument.presentationml.presentation"@,
        "xml"@ => "application/xml"@,
        "zip"@ => "application/zip"@,
        "rar"@ => "application/x-rar-compressed"@,
        "7z"@ => "application/x-7z-compressed"@,
        "gz"@ => "application/gzip"@,
        "tar"@ => "application/x-tar"@,
        "swf"@ => "application/x-shockwave-flash"@,
        "flv"@ => "video/x-flv"@,
        "avi"@ => "video/x-msvideo"@,
        "mov"@ => "video/quicktime"@,
        "mp4"@ => "video/mp4"@,
        "f4v"@ => "video/mp4"@,
        "f4p"@ => "video/mp4"@,
        "f4a"@ => "video/mp4"@,
        "f4b"@ => "video/mp4"@,
        "mp3"@ => "audio/mpeg"@,
        "wav"@ => "audio/x-wav"@,
        "ogg"@ => "audio/ogg"@,
        "webm"@ => "video/webm"@,
        "mpg"@ => "video/mpeg"@,
        "mpeg"@ => "video/mpeg"@,
        "mpe"@ => "video/mpeg"@,
        "mp2"@ => "video/mpeg"@,
        "m4v"@ => "video/x-m4v"@,
        "3gp"@ => "video/3gpp"@,
        "3g2"@ => "video/3gpp2"@,
        "mkv"@ => "video/x-matroska"@,
        "amv"@ => "video/x-matroska"@,
        "m3u"@ => "audio/x-mpegurl"@,
        "m3u8"@ => "application/vnd.apple.mpegurl"@,
        "ts"@ => "video/mp2t"@,
        "webp"@ => "image/webp"@,
        "bmp"@ => "image/bmp"@,
        "tif"@ => "image/tiff"@,
        "tiff"@ => "image/tiff"@,
        "psd"@ => "image/vnd.adobe.photoshop"@,
        "ai"@ => "application/postscript"@,
        "eps"@ => "application/postscript"@,
        "ps"@ => "application/postscript"@,
        "dwg"@ => "image/vnd.dwg"@,
        "dxf"@ => "image/vnd.dxf"@,
        "rtf"@ => "application/rtf"@,
        "odt"@ => "application/vnd.oasis.opendocument.text"@,
        "ods"@ => "application/vnd.oasis.opendocument.spreadsheet"@,
        "wasm"@ => "application/wasm"@,
    ]
}

/// Whether the table lists this extension.
pub open spec fn is_known_extension(extension: Seq<char>) -> bool {
    embedded_table().contains_key(extension)
}

/// The media type of an extension: its entry in the table, or the fallback
/// where the table has none.
pub open spec fn media_type_of_extension(extension: Seq<char>) -> Seq<char> {
    if is_known_extension(extension) {
        embedded_table()[extension]
    } else {
        FALLBACK_MEDIA_TYPE@
    }
}

/// Whether a character may stand in the type or the subtype of a media
/// type: a printable ASCII character other than the space and the slash.
pub open spec fn is_media_type_char(c: char) -> bool {
    '!' <= c && c <= '~' && c != '/'
}

/// Whether a text has the form of a media type: a type and a subtype, neither
/// empty, with one slash between them.
pub open spec fn is_media_type(text: Seq<char>) -> bool {
    exists|slash: int|
        0 < slash < text.len() - 1 && #[trigger] text[slash] == '/' && forall|i: int|
            0 <= i < text.len() && i != slash ==> is_media_type_char(#[trigger] text[i])
}

/// Spells out every extension of the table, character by character. With
/// this the solver tells the extensions apart, from each other and from a
/// text that is none of them.
pub proof fn lemma_extension_spellings()
    ensures
        "html"@.len() == 4 && "html"@[0] == 'h' && "html"@[1] == 't' && "html"@[2] == 'm'
            && "html"@[3] == 'l',
        "css"@.len() == 3 && "css"@[0] == 'c' && "css"@[1] == 's' && "css"@[2] == 's',
        "js"@.len() == 2 && "js"@[0] == 'j' && "js"@[1] == 's',
        "json"@.len() == 4 && "json"@[0] == 'j' && "json"@[1] == 's' && "json"@[2] == 'o'
            && "json"@[3] == 'n',
        "png"@.len() == 3 && "png"@[0] == 'p' && "png"@[1] == 'n' && "png"@[2] == 'g',
        "jpg"@.len() == 3 && "jpg"@[0] == 'j' && "jpg"@[1] == 'p' && "jpg"@[2] == 'g',
        "jpeg"@.len() == 4 && "jpeg"@[0] == 'j' && "jpeg"@[1] == 'p' && "jpeg"@[2] == 'e'
            && "jpeg"@[3] == 'g',
        "gif"@.len() == 3 && "gif"@[0] == 'g' && "gif"@[1] == 'i' && "gif"@[2] == 'f',
        "svg"@.len() == 3 && "svg"@[0] == 's' && "svg"@[1] == 'v' && "svg"@[2] == 'g',
        "ico"@.len() == 3 && "ico"@[0] == 'i' && "ico"@[1] == 'c' && "ico"@[2] == 'o',
        "ttf"@.len() == 3 && "ttf"@[0] == 't' && "ttf"@[1] == 't' && "ttf"@[2] == 'f',
        "woff"@.len() == 4 && "woff"@[0] == 'w' && "woff"@[1] == 'o' && "woff"@[2] == 'f'
            && "woff"@[3] == 'f',
        "woff2"@.len() == 5 && "woff2"@[0] == 'w' && "woff2"@[1] == 'o' && "woff2"@[2] == 'f'
            && "woff2"@[3] == 'f' && "woff2"@[4] == '2',
        "eot"@.len() == 3 && "eot"@[0] == 'e' && "eot"@[1] == 'o' && "eot"@[2] == 't',
        "otf"@.len() == 3 && "otf"@[0] == 'o' && "otf"@[1] == 't' && "otf"@[2] == 'f',
        "txt"@.len() == 3 && "txt"@[0] == 't' && "txt"@[1] == 'x' && "txt"@[2] == 't',
        "pdf"@.len() == 3 && "pdf"@[0] == 'p' && "pdf"@[1] == 'd' && "pdf"@[2] == 'f',
        "doc"@.len() == 3 && "doc"@[0] == 'd' && "doc"@[1] == 'o' && "doc"@[2] == 'c',
        "docx"@.len() == 4 && "docx"@[0] == 'd' && "docx"@[1] == 'o' && "docx"@[2] == 'c'
            && "docx"@[3] == 'x',
        "xls"@.len() == 3 && "xls"@[0] == 'x' && "xls"@[1] == 'l' && "xls"@[2] == 's',
        "xlsx"@.len() == 4 && "xlsx"@[0] == 'x' && "xlsx"@[1] == 'l' && "xlsx"@[2] == 's'
            && "xlsx"@[3] == 'x',
        "ppt"@.len() == 3 && "ppt"@[0] == 'p' && "ppt"@[1] == 'p' && "ppt"@[2] == 't',
        "pptx"@.len() == 4 && "pptx"@[0] == 'p' && "pptx"@[1] == 'p' && "pptx"@[2] == 't'
            && "pptx"@[3] == 'x',
        "xml"@.len() == 3 && "xml"@[0] == 'x' && "xml"@[1] == 'm' && "xml"@[2] == 'l',
        "zip"@.len() == 3 && "zip"@[0] == 'z' && "zip"@[1] == 'i' && "zip"@[2] == 'p',
        "rar"@.len() == 3 && "rar"@[0] == 'r' && "rar"@[1] == 'a' && "rar"@[2] == 'r',
        "7z"@.len() == 2 && "7z"@[0] == '7' && "7z"@[1] == 'z',
        "gz"@.len() == 2 && "gz"@[0] == 'g' && "gz"@[1] == 'z',
        "tar"@.len() == 3 && "tar"@[0] == 't' && "tar"@[1] == 'a' && "tar"@[2] == 'r',
        "swf"@.len() == 3 && "swf"@[0] == 's' && "swf"@[1] == 'w' && "swf"@[2] == 'f',
        "flv"@.len() == 3 && "flv"@[0] == 'f' && "flv"@[1] == 'l' && "flv"@[2] == 'v',
        "avi"@.len() == 3 && "avi"@[0] == 'a' && "avi"@[1] == 'v' && "avi"@[2] == 'i',
        "mov"@.len() == 3 && "mov"@[0] == 'm' && "mov"@[1] == 'o' && "mov"@[2] == 'v',
        "mp4"@.len() == 3 && "mp4"@[0] == 'm' && "mp4"@[1] == 'p' && "mp4"@[2] == '4',
        "f4v"@.len() == 3 && "f4v"@[0] == 'f' && "f4v"@[1] == '4' && "f4v"@[2] == 'v',
        "f4p"@.len() == 3 && "f4p"@[0] == 'f' && "f4p"@[1] == '4' && "f4p"@[2] == 'p',
        "f4a"@.len() == 3 && "f4a"@[0] == 'f' && "f4a"@[1] == '4' && "f4a"@[2] == 'a',
        "f4b"@.len() == 3 && "f4b"@[0] == 'f' && "f4b"@[1] == '4' && "f4b"@[2] == 'b',
        "mp3"@.len() == 3 && "mp3"@[0] == 'm' && "mp3"@[1] == 'p' && "mp3"@[2] == '3',
        "wav"@.len() == 3 && "wav"@[0] == 'w' && "wav"@[1] == 'a' && "wav"@[2] == 'v',
        "ogg"@.len() == 3 && "ogg"@[0] == 'o' && "ogg"@[1] == 'g' && "ogg"@[2] == 'g',
        "webm"@.len() == 4 && "webm"@[0] == 'w' && "webm"@[1] == 'e' && "webm"@[2] == 'b'
            && "webm"@[3] == 'm',
        "mpg"@.len() == 3 && "mpg"@[0] == 'm' && "mpg"@[1] == 'p' && "mpg"@[2] == 'g',
        "mpeg"@.len() == 4 && "mpeg"@[0] == 'm' && "mpeg"@[1] == 'p' && "mpeg"@[2] == 'e'
            && "mpeg"@[3] == 'g',
        "mpe"@.len() == 3 && "mpe"@[0] == 'm' && "mpe"@[1] == 'p' && "mpe"@[2] == 'e',
        "mp2"@.len() == 3 && "mp2"@[0] == 'm' && "mp2"@[1] == 'p' && "mp2"@[2] == '2',
        "m4v"@.len() == 3 && "m4v"@[0] == 'm' && "m4v"@[1] == '4' && "m4v"@[2] == 'v',
        "3gp"@.len() == 3 && "3gp"@[0] == '3' && "3gp"@[1] == 'g' && "3gp"@[2] == 'p',
        "3g2"@.len() == 3 && "3g2"@[0] == '3' && "3g2"@[1] == 'g' && "3g2"@[2] == '2',
        "mkv"@.len() == 3 && "mkv"@[0] == 'm' && "mkv"@[1] == 'k' && "mkv"@[2] == 'v',
        "amv"@.len() == 3 && "amv"@[0] == 'a' && "amv"@[1] == 'm' && "amv"@[2] == 'v',
        "m3u"@.len() == 3 && "m3u"@[0] == 'm' && "m3u"@[1] == '3' && "m3u"@[2] == 'u',
        "m3u8"@.len() == 4 && "m3u8"@[0] == 'm' && "m3u8"@[1] == '3' && "m3u8"@[2] == 'u'
            && "m3u8"@[3] == '8',
        "ts"@.len() == 2 && "ts"@[0] == 't' && "ts"@[1] == 's',
        "webp"@.len() == 4 && "webp"@[0] == 'w' && "webp"@[1] == 'e' && "webp"@[2] == 'b'
            && "webp"@[3] == 'p',
        "bmp"@.len() == 3 && "bmp"@[0] == 'b' && "bmp"@[1] == 'm' && "bmp"@[2] == 'p',
        "tif"@.len() == 3 && "tif"@[0] == 't' && "tif"@[1] == 'i' && "tif"@[2] == 'f',
        "tiff"@.len() == 4 && "tiff"@[0] == 't' && "tiff"@[1] == 'i' && "tiff"@[2] == 'f'
            && "tiff"@[3] == 'f',
        "psd"@.len() == 3 && "psd"@[0] == 'p' && "psd"@[1] == 's' && "psd"@[2] == 'd',
        "ai"@.len() == 2 && "ai"@[0] == 'a' && "ai"@[1] == 'i',
        "eps"@.len() == 3 && "eps"@[0] == 'e' && "eps"@[1] == 'p' && "eps"@[2] == 's',
        "ps"@.len() == 2 && "ps"@[0] == 'p' && "ps"@[1] == 's',
        "dwg"@.len() == 3 && "dwg"@[0] == 'd' && "dwg"@[1] == 'w' && "dwg"@[2] == 'g',
        "dxf"@.len() == 3 && "dxf"@[0] == 'd' && "dxf"@[1] == 'x' && "dxf"@[2] == 'f',
        "rtf"@.len() == 3 && "rtf"@[0] == 'r' && "rtf"@[1] == 't' && "rtf"@[2] == 'f',
        "odt"@.len() == 3 && "odt"@[0] == 'o' && "odt"@[1] == 'd' && "odt"@[2] == 't',
        "ods"@.len() == 3 && "ods"@[0] == 'o' && "ods"@[1] == 'd' && "ods"@[2] == 's',
        "wasm"@.len() == 4 && "wasm"@[0] == 'w' && "wasm"@[1] == 'a' && "wasm"@[2] == 's'
            && "wasm"@[3] == 'm',
{
    reveal_strlit("html");
    reveal_strlit("css");
    reveal_strlit("js");
    reveal_strlit("json");
    reveal_strlit("png");
    reveal_strlit("jpg");
    reveal_strlit("jpeg");
    reveal_strlit("gif");
    reveal_strlit("svg");
    reveal_strlit("ico");
    reveal_strlit("ttf");
    reveal_strlit("woff");
    reveal_strlit("woff2");
    reveal_strlit("eot");
    reveal_strlit("otf");
    reveal_strlit("txt");
    reveal_strlit("pdf");
    reveal_strlit("doc");
    reveal_strlit("docx");
    reveal_strlit("xls");
    reveal_strlit("xlsx");
    reveal_strlit("ppt");
    reveal_strlit("pptx");
    reveal_strlit("xml");
    reveal_strlit("zip");
    reveal_strlit("rar");
    reveal_strlit("7z");
    reveal_strlit("gz");
    reveal_strlit("tar");
    reveal_strlit("swf");
    reveal_strlit("flv");
    reveal_strlit("avi");
    reveal_strlit("mov");
    reveal_strlit("mp4");
    reveal_strlit("f4v");
    reveal_strlit("f4p");
    reveal_strlit("f4a");
    reveal_strlit("f4b");
    reveal_strlit("mp3");
    reveal_strlit("wav");
    reveal_strlit("ogg");
    reveal_strlit("webm");
    reveal_strlit("mpg");
    reveal_strlit("mpeg");
    reveal_strlit("mpe");
    reveal_strlit("mp2");
    reveal_strlit("m4v");
    reveal_strlit("3gp");
    reveal_strlit("3g2");
    reveal_strlit("mkv");
    reveal_strlit("amv");
    reveal_strlit("m3u");
    reveal_strlit("m3u8");
    reveal_strlit("ts");
    reveal_strlit("webp");
    reveal_strlit("bmp");
    reveal_strlit("tif");
    reveal_strlit("tiff");
    reveal_strlit("psd");
    reveal_strlit("ai");
    reveal_strlit("eps");
    reveal_strlit("ps");
    reveal_strlit("dwg");
    reveal_strlit("dxf");
    reveal_strlit("rtf");
    reveal_strlit("odt");
    reveal_strlit("ods");
    reveal_strlit("wasm");
}

/// No entry of the table gives the fallback: a result equal to the fallback
/// tells that the extension is not listed.
pub proof fn lemma_fallback_is_no_entry(extension: Seq<char>)
    requires
        is_known_extension(extension),
    ensures
        embedded_table()[extension] != FALLBACK_MEDIA_TYPE@,
{
    lemma_extension_spellings();
    reveal_strlit("application/octet-stream");
    assert(FALLBACK_MEDIA_TYPE@.len() == 24 && FALLBACK_MEDIA_TYPE@[12] == 'o');
    reveal_strlit("text/html");
    assert("text/html"@.len() == 9);
    reveal_strlit("text/css");
    assert("text/css"@.len() == 8);
    reveal_strlit("text/javascript");
    assert("text/javascript"@.len() == 15);
    reveal_strlit("application/json");
    assert("application/json"@.len() == 16);
    reveal_strlit("image/png");
    assert("image/png"@.len() == 9);
    reveal_strlit("image/jpeg");
    assert("image/jpeg"@.len() == 10);
    reveal_strlit("image/gif");
    assert("image/gif"@.len() == 9);
    reveal_strlit("image/svg+xml");
    assert("image/svg+xml"@.len() == 13);
    reveal_strlit("image/x-icon");
    assert("image/x-icon"@.len() == 12);
    reveal_strlit("font/ttf");
    assert("font/ttf"@.len() == 8);
    reveal_strlit("font/woff");
    assert("font/woff"@.len() == 9);
    reveal_strlit("font/woff2");
    assert("font/woff2"@.len() == 10);
    reveal_strlit("application/vnd.ms-fontobject");
    assert("application/vnd.ms-fontobject"@.len() == 29);
    reveal_strlit("font/otf");
    assert("font/otf"@.len() == 8);
    reveal_strlit("text/plain");
    assert("text/plain"@.len() == 10);
    reveal_strlit("application/pdf");
    assert("application/pdf"@.len() == 15);
    reveal_strlit("application/msword");
    assert("application/msword"@.len() == 18);
    reveal_strlit("application/vnd.openxmlformats-officedocument.wordprocessingml.document");
    assert("application/vnd.openxmlformats-officedocument.wordprocessingml.document"@.len() == 71);
    reveal_strlit("application/vnd.ms-excel");
    assert("application/vnd.ms-excel"@[12] == 'v');
    reveal_strlit("application/vnd.openxmlformats-officedocument.spreadsheetml.sheet");
    assert("application/vnd.openxmlformats-officedocument.spreadsheetml.sheet"@.len() == 65);
    reveal_strlit("application/vnd.ms-powerpoint");
    assert("application/vnd.ms-powerpoint"@.len() == 29);
    reveal_strlit("application/vnd.openxmlformats-officedocument.presentationml.presentation");
    assert("application/vnd.openxmlformats-officedocument.presentationml.presentation"@.len() == 73);
    reveal_strlit("application/xml");
    assert("application/xml"@.len() == 15);
    reveal_strlit("application/zip");
    assert("application/zip"@.len() == 15);
    reveal_strlit("application/x-rar-compressed");
    assert("application/x-rar-compressed"@.len() == 28);
    reveal_strlit("application/x-7z-compressed");
    assert("application/x-7z-compressed"@.len() == 27);
    reveal_strlit("application/gzip");
    assert("application/gzip"@.len() == 16);
    reveal_strlit("application/x-tar");
    assert("application/x-tar"@.len() == 17);
    reveal_strlit("application/x-shockwave-flash");
    assert("application/x-shockwave-flash"@.len() == 29);
    reveal_strlit("video/x-flv");
    assert("video/x-flv"@.len() == 11);
    reveal_strlit("video/x-msvideo");
    assert("video/x-msvideo"@.len() == 15);
    reveal_strlit("video/quicktime");
    assert("video/quicktime"@.len() == 15);
    reveal_strlit("video/mp4");
    assert("video/mp4"@.len() == 9);
    reveal_strlit("audio/mpeg");
    assert("audio/mpeg"@.len() == 10);
    reveal_strlit("audio/x-wav");
    assert("audio/x-wav"@.len() == 11);
    reveal_strlit("audio/ogg");
    assert("audio/ogg"@.len() == 9);
    reveal_strlit("video/webm");
    assert("video/webm"@.len() == 10);
    reveal_strlit("video/mpeg");
    assert("video/mpeg"@.len() == 10);
    reveal_strlit("video/x-m4v");
    assert("video/x-m4v"@.len() == 11);
    reveal_strlit("video/3gpp");
    assert("video/3gpp"@.len() == 10);
    reveal_strlit("video/3gpp2");
    assert("video/3gpp2"@.len() == 11);
    reveal_strlit("video/x-matroska");
    assert("video/x-matroska"@.len() == 16);
    reveal_strlit("audio/x-mpegurl");
    assert("audio/x-mpegurl"@.len() == 15);
    reveal_strlit("application/vnd.apple.mpegurl");
    assert("application/vnd.apple.mpegurl"@.len() == 29);
    reveal_strlit("video/mp2t");
    assert("video/mp2t"@.len() == 10);
    reveal_strlit("image/webp");
    assert("image/webp"@.len() == 10);
    reveal_strlit("image/bmp");
    assert("image/bmp"@.len() == 9);
    reveal_strlit("image/tiff");
    assert("image/tiff"@.len() == 10);
    reveal_strlit("image/vnd.adobe.photoshop");
    assert("image/vnd.adobe.photoshop"@.len() == 25);
    reveal_strlit("application/postscript");
    assert("application/postscript"@.len() == 22);
    reveal_strlit("image/vnd.dwg");
    assert("image/vnd.dwg"@.len() == 13);
    reveal_strlit("image/vnd.dxf");
    assert("image/vnd.dxf"@.len() == 13);
    reveal_strlit("application/rtf");
    assert("application/rtf"@.len() == 15);
    reveal_strlit("application/vnd.oasis.opendocument.text");
    assert("application/vnd.oasis.opendocument.text"@.len() == 39);
    reveal_strlit("application/vnd.oasis.opendocument.spreadsheet");
    assert("application/vnd.oasis.opendocument.spreadsheet"@.len() == 46);
    reveal_strlit("application/wasm");
    assert("application/wasm"@.len() == 16);
}

/// Every media type of the table has the form of a media type, and so has
/// the fallback.
pub proof fn lemma_entries_are_media_types(extension: Seq<char>)
    ensures
        is_media_type(media_type_of_extension(extension)),
{
    assert(is_media_type("text/html"@)) by {
        reveal_strlit("text/html");
        assert("text/html"@[4] == '/');
    }
    assert(is_media_type("text/css"@)) by {
        reveal_strlit("text/css");
        assert("text/css"@[4] == '/');
    }
    assert(is_media_type("text/javascript"@)) by {
        reveal_strlit("text/javascript");
        assert("text/javascript"@[4] == '/');
    }
    assert(is_media_type("application/json"@)) by {
        reveal_strlit("application/json");
        assert("application/json"@[11] == '/');
    }
    assert(is_media_type("image/png"@)) by {
        reveal_strlit("image/png");
        assert("image/png"@[5] == '/');
    }
    assert(is_media_type("image/jpeg"@)) by {
        reveal_strlit("image/jpeg");
        assert("image/jpeg"@[5] == '/');
    }
    assert(is_media_type("image/gif"@)) by {
        reveal_strlit("image/gif");
        assert("image/gif"@[5] == '/');
    }
    assert(is_media_type("image/svg+xml"@)) by {
        reveal_strlit("image/svg+xml");
        assert("image/svg+xml"@[5] == '/');
    }
    assert(is_media_type("image/x-icon"@)) by {
        reveal_strlit("image/x-icon");
        assert("image/x-icon"@[5] == '/');
    }
    assert(is_media_type("font/ttf"@)) by {
        reveal_strlit("font/ttf");
        assert("font/ttf"@[4] == '/');
    }
    assert(is_media_type("font/woff"@)) by {
        reveal_strlit("font/woff");
        assert("font/woff"@[4] == '/');
    }
    assert(is_media_type("font/woff2"@)) by {
        reveal_strlit("font/woff2");
        assert("font/woff2"@[4] == '/');
    }
    assert(is_media_type("application/vnd.ms-fontobject"@)) by {
        reveal_strlit("application/vnd.ms-fontobject");
        assert("application/vnd.ms-fontobject"@[11] == '/');
    }
    assert(is_media_type("font/otf"@)) by {
        reveal_strlit("font/otf");
        assert("font/otf"@[4] == '/');
    }
    assert(is_media_type("text/plain"@)) by {
        reveal_strlit("text/plain");
        assert("text/plain"@[4] == '/');
    }
    assert(is_media_type("application/pdf"@)) by {
        reveal_strlit("application/pdf");
        assert("application/pdf"@[11] == '/');
    }
    assert(is_media_type("application/msword"@)) by {
        reveal_strlit("application/msword");
        assert("application/msword"@[11] == '/');
    }
    assert(is_media_type("application/vnd.openxmlformats-officedocument.wordprocessingml.document"@)) by {
        reveal_strlit("application/vnd.openxmlformats-officedocument.wordprocessingml.document");
        assert("application/vnd.openxmlformats-officedocument.wordprocessingml.document"@[11] == '/');
    }
    assert(is_media_type("application/vnd.ms-excel"@)) by {
        reveal_strlit("application/vnd.ms-excel");
        assert("application/vnd.ms-excel"@[11] == '/');
    }
    assert(is_media_type("application/vnd.openxmlformats-officedocument.spreadsheetml.sheet"@)) by {
        reveal_strlit("application/vnd.openxmlformats-officedocument.spreadsheetml.sheet");
        assert("application/vnd.openxmlformats-officedocument.spreadsheetml.sheet"@[11] == '/');
    }
    assert(is_media_type("application/vnd.ms-powerpoint"@)) by {
        reveal_strlit("application/vnd.ms-powerpoint");
        assert("application/vnd.ms-powerpoint"@[11] == '/');
    }
    assert(is_media_type("application/vnd.openxmlformats-officedocument.presentationml.presentation"@)) by {
        reveal_strlit("application/vnd.openxmlformats-officedocument.presentationml.presentation");
        assert("application/vnd.openxmlformats-officedocument.presentationml.presentation"@[11] == '/');
    }
    assert(is_media_type("application/xml"@)) by {
        reveal_strlit("application/xml");
        assert("application/xml"@[11] == '/');
    }
    assert(is_media_type("application/zip"@)) by {
        reveal_strlit("application/zip");
        assert("application/zip"@[11] == '/');
    }
    assert(is_media_type("application/x-rar-compressed"@)) by {
        reveal_strlit("application/x-rar-compressed");
        assert("application/x-rar-compressed"@[11] == '/');
    }
    assert(is_media_type("application/x-7z-compressed"@)) by {
        reveal_strlit("application/x-7z-compressed");
        assert("application/x-7z-compressed"@[11] == '/');
    }
    assert(is_media_type("application/gzip"@)) by {
        reveal_strlit("application/gzip");
        assert("application/gzip"@[11] == '/');
    }
    assert(is_media_type("application/x-tar"@)) by {
        reveal_strlit("application/x-tar");
        assert("application/x-tar"@[11] == '/');
    }
    assert(is_media_type("application/x-shockwave-flash"@)) by {
        reveal_strlit("application/x-shockwave-flash");
        assert("application/x-shockwave-flash"@[11] == '/');
    }
    assert(is_media_type("video/x-flv"@)) by {
        reveal_strlit("video/x-flv");
        assert("video/x-flv"@[5] == '/');
    }
    assert(is_media_type("video/x-msvideo"@)) by {
        reveal_strlit("video/x-msvideo");
        assert("video/x-msvideo"@[5] == '/');
    }
    assert(is_media_type("video/quicktime"@)) by {
        reveal_strlit("video/quicktime");
        assert("video/quicktime"@[5] == '/');
    }
    assert(is_media_type("video/mp4"@)) by {
        reveal_strlit("video/mp4");
        assert("video/mp4"@[5] == '/');
    }
    assert(is_media_type("audio/mpeg"@)) by {
        reveal_strlit("audio/mpeg");
        assert("audio/mpeg"@[5] == '/');
    }
    assert(is_media_type("audio/x-wav"@)) by {
        reveal_strlit("audio/x-wav");
        assert("audio/x-wav"@[5] == '/');
    }
    assert(is_media_type("audio/ogg"@)) by {
        reveal_strlit("audio/ogg");
        assert("audio/ogg"@[5] == '/');
    }
    assert(is_media_type("video/webm"@)) by {
        reveal_strlit("video/webm");
        assert("video/webm"@[5] == '/');
    }
    assert(is_media_type("video/mpeg"@)) by {
        reveal_strlit("video/mpeg");
        assert("video/mpeg"@[5] == '/');
    }
    assert(is_media_type("video/x-m4v"@)) by {
        reveal_strlit("video/x-m4v");
        assert("video/x-m4v"@[5] == '/');
    }
    assert(is_media_type("video/3gpp"@)) by {
        reveal_strlit("video/3gpp");
        assert("video/3gpp"@[5] == '/');
    }
    assert(is_media_type("video/3gpp2"@)) by {
        reveal_strlit("video/3gpp2");
        assert("video/3gpp2"@[5] == '/');
    }
    assert(is_media_type("video/x-matroska"@)) by {
        reveal_strlit("video/x-matroska");
        assert("video/x-matroska"@[5] == '/');
    }
    assert(is_media_type("audio/x-mpegurl"@)) by {
        reveal_strlit("audio/x-mpegurl");
        assert("audio/x-mpegurl"@[5] == '/');
    }
    assert(is_media_type("application/vnd.apple.mpegurl"@)) by {
        reveal_strlit("application/vnd.apple.mpegurl");
        assert("application/vnd.apple.mpegurl"@[11] == '/');
    }
    assert(is_media_type("video/mp2t"@)) by {
        reveal_strlit("video/mp2t");
        assert("video/mp2t"@[5] == '/');
    }
    assert(is_media_type("image/webp"@)) by {
        reveal_strlit("image/webp");
        assert("image/webp"@[5] == '/');
    }
    assert(is_media_type("image/bmp"@)) by {
        reveal_strlit("image/bmp");
        assert("image/bmp"@[5] == '/');
    }
    assert(is_media_type("image/tiff"@)) by {
        reveal_strlit("image/tiff");
        assert("image/tiff"@[5] == '/');
    }
    assert(is_media_type("image/vnd.adobe.photoshop"@)) by {
        reveal_strlit("image/vnd.adobe.photoshop");
        assert("image/vnd.adobe.photoshop"@[5] == '/');
    }
    assert(is_media_type("application/postscript"@)) by {
        reveal_strlit("application/postscript");
        assert("application/postscript"@[11] == '/');
    }
    assert(is_media_type("image/vnd.dwg"@)) by {
        reveal_strlit("image/vnd.dwg");
        assert("image/vnd.dwg"@[5] == '/');
    }
    assert(is_media_type("image/vnd.dxf"@)) by {
        reveal_strlit("image/vnd.dxf");
        assert("image/vnd.dxf"@[5] == '/');
    }
    assert(is_media_type("application/rtf"@)) by {
        reveal_strlit("application/rtf");
        assert("application/rtf"@[11] == '/');
    }
    assert(is_media_type("application/vnd.oasis.opendocument.text"@)) by {
        reveal_strlit("application/vnd.oasis.opendocument.text");
        assert("application/vnd.oasis.opendocument.text"@[11] == '/');
    }
    assert(is_media_type("application/vnd.oasis.opendocument.spreadsheet"@)) by {
        reveal_strlit("application/vnd.oasis.opendocument.spreadsheet");
        assert("application/vnd.oasis.opendocument.spreadsheet"@[11] == '/');
    }
    assert(is_media_type("application/wasm"@)) by {
        reveal_strlit("application/wasm");
        assert("application/wasm"@[11] == '/');
    }
    assert(is_media_type("application/octet-stream"@)) by {
        reveal_strlit("application/octet-stream");
        assert("application/octet-stream"@[11] == '/');
    }
}

/// Looks an extension up in the embedded table. The extension is compared as
/// it is given: the entries are in lower case, and so should the extension
/// be. An extension that is not listed gets the fallback; the result always
/// has the form of a media type.
pub fn infer_content_type_from_extension(extension: &str) -> (media_type: &'static str)
    ensures
        media_type@ == media_type_of_extension(extension@),
        !is_known_extension(extension@) ==> media_type@ == FALLBACK_MEDIA_TYPE@,
        is_media_type(media_type@),
{
    proof {
        lemma_extension_spellings();
        lemma_entries_are_media_types(extension@);
    }
    if str_eq(extension, "html") {
        "text/html"
    } else if str_eq(extension, "css") {
        "text/css"
    } else if str_eq(extension, "js") {
        "text/javascript"
    } else if str_eq(extension, "json") {
        "application/json"
    } else if str_eq(extension, "png") {
        "image/png"
    } else if str_eq(extension, "jpg") || str_eq(extension, "jpeg") {
        "image/jpeg"
    } else if str_eq(extension, "gif") {
        "image/gif"
    } else if str_eq(extension, "svg") {
        "image/svg+xml"
    } else if str_eq(extension, "ico") {
        "image/x-icon"
    } else if str_eq(extension, "ttf") {
        "font/ttf"
    } else if str_eq(extension, "woff") {
        "font/woff"
    } else if str_eq(extension, "woff2") {
        "font/woff2"
    } else if str_eq(extension, "eot") {
        "application/vnd.ms-fontobject"
    } else if str_eq(extension, "otf") {
        "font/otf"
    } else if str_eq(extension, "txt") {
        "text/plain"
    } else if str_eq(extension, "pdf") {
        "application/pdf"
    } else if str_eq(extension, "doc") {
        "application/msword"
    } else if str_eq(extension, "docx") {
        "application/vnd.openxmlformats-officedocument.wordprocessingml.document"
    } else if str_eq(extension, "xls") {
        "application/vnd.ms-excel"
    } else if str_eq(extension, "xlsx") {
        "application/vnd.openxmlformats-officedocument.spreadsheetml.sheet"
    } else if str_eq(extension, "ppt") {
        "application/vnd.ms-powerpoint"
    } else if str_eq(extension, "pptx") {
        "application/vnd.openxmlformats-officedocument.presentationml.presentation"
    } else if str_eq(extension, "xml") {
        "application/xml"
    } else if str_eq(extension, "zip") {
        "application/zip"
    } else if str_eq(extension, "rar") {
        "application/x-rar-compressed"
    } else if str_eq(extension, "7z") {
        "application/x-7z-compressed"
    } else if str_eq(extension, "gz") {
        "application/gzip"
    } else if str_eq(extension, "tar") {
        "application/x-tar"
    } else if str_eq(extension, "swf") {
        "application/x-shockwave-flash"
    } else if str_eq(extension, "flv") {
        "video/x-flv"
    } else if str_eq(extension, "avi") {
        "video/x-msvideo"
    } else if str_eq(extension, "mov") {
        "video/quicktime"
    } else if str_eq(extension, "mp4")
        || str_eq(extension, "f4v")
        || str_eq(extension, "f4p")
        || str_eq(extension, "f4a")
        || str_eq(extension, "f4b") {
        "video/mp4"
    } else if str_eq(extension, "mp3") {
        "audio/mpeg"
    } else if str_eq(extension, "wav") {
        "audio/x-wav"
    } else if str_eq(extension, "ogg") {
        "audio/ogg"
    } else if str_eq(extension, "webm") {
        "video/webm"
    } else if str_eq(extension, "mpg")
        || str_eq(extension, "mpeg")
        || str_eq(extension, "mpe")
        || str_eq(extension, "mp2") {
        "video/mpeg"
    } else if str_eq(extension, "m4v") {
        "video/x-m4v"
    } else if str_eq(extension, "3gp") {
        "video/3gpp"
    } else if str_eq(extension, "3g2") {
        "video/3gpp2"
    } else if str_eq(extension, "mkv") || str_eq(extension, "amv") {
        "video/x-matroska"
    } else if str_eq(extension, "m3u") {
        "audio/x-mpegurl"
    } else if str_eq(extension, "m3u8") {
        "application/vnd.apple.mpegurl"
    } else if str_eq(extension, "ts") {
        "video/mp2t"
    } else if str_eq(extension, "webp") {
        "image/webp"
    } else if str_eq(extension, "bmp") {
        "image/bmp"
    } else if str_eq(extension, "tif") || str_eq(extension, "tiff") {
        "image/tiff"
    } else if str_eq(extension, "psd") {
        "image/vnd.adobe.photoshop"
    } else if str_eq(extension, "ai") || str_eq(extension, "eps") || str_eq(extension, "ps") {
        "application/postscript"
    } else if str_eq(extension, "dwg") {
        "image/vnd.dwg"
    } else if str_eq(extension, "dxf") {
        "image/vnd.dxf"
    } else if str_eq(extension, "rtf") {
        "application/rtf"
    } else if str_eq(extension, "odt") {
        "application/vnd.oasis.opendocument.text"
    } else if str_eq(extension, "ods") {
        "application/vnd.oasis.opendocument.spreadsheet"
    } else if str_eq(extension, "wasm") {
        "application/wasm"
    } else {
        FALLBACK_MEDIA_TYPE
    }
}

} // verus!
