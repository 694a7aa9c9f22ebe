//! The MIME type under which a stored file is served, chosen by its name's extension.

use vstd::prelude::*;
use vstd::string::*;

use crate::text::chars_of;

verus! {

/// The part of a file name after its last `.`; the whole name when it has no `.`.
pub open spec fn extension(name: Seq<char>) -> Seq<char>
    decreases name.len(),
{
    if name.len() == 0 {
        name
    } else if name.last() == '.' {
        Seq::empty()
    } else {
        extension(name.drop_last()).push(name.last())
    }
}

/// An extension holds no `.`.
pub proof fn lemma_extension_has_no_dot(name: Seq<char>)
    ensures
        !extension(name).contains('.'),
    decreases name.len(),
{
    if name.len() > 0 && name.last() != '.' {
        lemma_extension_has_no_dot(name.drop_last());
        assert forall|i: int| 0 <= i < extension(name).len() implies extension(name)[i] != '.' by {
            if i < extension(name).len() - 1 {
                assert(extension(name)[i] == extension(name.drop_last())[i]);
            }
        }
    }
}

/// After a `.`, a part without `.` is the extension.
pub proof fn lemma_extension_after_dot(prefix: Seq<char>, ext: Seq<char>)
    requires
        !ext.contains('.'),
    ensures
        extension(prefix.push('.') + ext) == ext,
    decreases ext.len(),
{
    let name = prefix.push('.') + ext;
    if ext.len() == 0 {
        assert(name =~= prefix.push('.'));
        assert(extension(name) =~= ext);
    } else {
        assert(name.drop_last() =~= prefix.push('.') + ext.drop_last());
        assert(!ext.drop_last().contains('.')) by {
            if ext.drop_last().contains('.') {
                let i = choose|i: int| 0 <= i < ext.drop_last().len() && ext.drop_last()[i] == '.';
                assert(ext[i] == '.');
            }
        }
        assert(name.last() == ext.last());
        assert(ext.last() != '.') by {
            assert(ext[ext.len() - 1] == ext.last());
        }
        lemma_extension_after_dot(prefix, ext.drop_last());
        assert(extension(name) =~= ext.drop_last().push(ext.last()));
        assert(ext.drop_last().push(ext.last()) =~= ext);
    }
}

/// The MIME type served for a file with extension `ext`.
pub open spec fn content_type_for(ext: Seq<char>) -> Seq<char> {
    if ext == "html"@ {
        "text/html"@
    } else if ext == "css"@ {
        "text/css"@
    } else if ext == "js"@ {
        "application/javascript"@
    } else if ext == "json"@ {
        "application/json"@
    } else if ext == "xml"@ {
        "application/xml"@
    } else if ext == "pdf"@ {
        "application/pdf"@
    } else if ext == "zip"@ {
        "application/zip"@
    } else if ext == "tar"@ {
        "application/x-tar"@
    } else if ext == "gz"@ {
        "application/gzip"@
    } else if ext == "bz2"@ {
        "application/x-bzip2"@
    } else if ext == "7z"@ {
        "application/x-7z-compressed"@
    } else if ext == "rar"@ {
        "application/x-rar-compressed"@
    } else if ext == "txt"@ {
        "text/plain"@
    } else if ext == "rtf"@ {
        "application/rtf"@
    } else if ext == "doc"@ {
        "application/msword"@
    } else if ext == "docx"@ {
        "application/vnd.openxmlformats-officedocument.wordprocessingml.document"@
    } else if ext == "xls"@ {
        "application/vnd.ms-excel"@
    } else if ext == "xlsx"@ {
        "application/vnd.openxmlformats-officedocument.spreadsheetml.sheet"@
    } else if ext == "ppt"@ {
        "application/vnd.ms-powerpoint"@
    } else if ext == "pptx"@ {
        "application/vnd.openxmlformats-officedocument.presentationml.presentation"@
    } else if ext == "csv"@ {
        "text/csv"@
    } else if ext == "tsv"@ {
        "text/tab-separated-values"@
    } else if ext == "mp3"@ {
        "audio/mpeg"@
    } else if ext == "wav"@ {
        "audio/wav"@
    } else if ext == "aac"@ {
        "audio/aac"@
    } else if ext == "flac"@ {
        "audio/flac"@
    } else if ext == "opus"@ {
        "audio/opus"@
    } else if ext == "ogg"@ {
        "audio/ogg"@
    } else if ext == "mp4"@ {
        "video/mp4"@
    } else if ext == "webm"@ {
        "video/webm"@
    } else if ext == "avi"@ {
        "video/x-msvideo"@
    } else if ext == "mkv"@ {
        "video/x-matroska"@
    } else if ext == "mov"@ {
        "video/quicktime"@
    } else if ext == "wmv"@ {
        "video/x-ms-wmv"@
    } else if ext == "gif"@ {
        "image/gif"@
    } else if ext == "jpg"@ {
        "image/jpeg"@
    } else if ext == "jpeg"@ {
        "image/jpeg"@
    } else if ext == "png"@ {
        "image/png"@
    } else if ext == "webp"@ {
        "image/webp"@
    } else if ext == "bmp"@ {
        "image/bmp"@
    } else if ext == "ico"@ {
        "image/x-icon"@
    } else if ext == "svg"@ {
        "image/svg+xml"@
    } else if ext == "tiff"@ {
        "image/tiff"@
    } else if ext == "psd"@ {
        "image/vnd.adobe.photoshop"@
    } else if ext == "ai"@ {
        "application/postscript"@
    } else if ext == "eps"@ {
        "application/postscript"@
    } else if ext == "mpg"@ {
        "video/mpeg"@
    } else if ext == "mpeg"@ {
        "video/mpeg"@
    } else if ext == "weba"@ {
        "audio/webm"@
    } else if ext == "docm"@ {
        "application/vnd.ms-word.document.macroEnabled.12"@
    } else if ext == "dotx"@ {
        "application/vnd.openxmlformats-officedocument.wordprocessingml.template"@
    } else if ext == "dotm"@ {
        "application/vnd.ms-word.template.macroEnabled.12"@
    } else if ext == "xlsm"@ {
        "application/vnd.ms-excel.sheet.macroEnabled.12"@
    } else if ext == "xltx"@ {
        "application/vnd.openxmlformats-officedocument.spreadsheetml.template"@
    } else if ext == "xltm"@ {
        "application/vnd.ms-excel.template.macroEnabled.12"@
    } else if ext == "exe"@ {
        "application/x-msdownload"@
    } else if ext == "msi"@ {
        "application/x-msdownload"@
    } else if ext == "dll"@ {
        "application/x-msdownload"@
    } else if ext == "cab"@ {
        "application/vnd.ms-cab-compressed"@
    } else if ext == "apk"@ {
        "application/vnd.android.package-archive"@
    } else {
        "application/octet-stream"@
    }
}

/// The table of MIME types: each listed extension is served as its own type.
pub proof fn lemma_content_type_table()
    ensures
        content_type_for("html"@) == "text/html"@,
        content_type_for("css"@) == "text/css"@,
        content_type_for("js"@) == "application/javascript"@,
        content_type_for("json"@) == "application/json"@,
        content_type_for("xml"@) == "application/xml"@,
        content_type_for("pdf"@) == "application/pdf"@,
        content_type_for("zip"@) == "application/zip"@,
        content_type_for("tar"@) == "application/x-tar"@,
        content_type_for("gz"@) == "application/gzip"@,
        content_type_for("bz2"@) == "application/x-bzip2"@,
        content_type_for("7z"@) == "application/x-7z-compressed"@,
        content_type_for("rar"@) == "application/x-rar-compressed"@,
        content_type_for("txt"@) == "text/plain"@,
        content_type_for("rtf"@) == "application/rtf"@,
        content_type_for("doc"@) == "application/msword"@,
        content_type_for("docx"@) == "application/vnd.openxmlformats-officedocument.wordprocessingml.document"@,
        content_type_for("xls"@) == "application/vnd.ms-excel"@,
        content_type_for("xlsx"@) == "application/vnd.openxmlformats-officedocument.spreadsheetml.sheet"@,
        content_type_for("ppt"@) == "application/vnd.ms-powerpoint"@,
        content_type_for("pptx"@) == "application/vnd.openxmlformats-officedocument.presentationml.presentation"@,
        content_type_for("csv"@) == "text/csv"@,
        content_type_for("tsv"@) == "text/tab-separated-values"@,
        content_type_for("mp3"@) == "audio/mpeg"@,
        content_type_for("wav"@) == "audio/wav"@,
        content_type_for("aac"@) == "audio/aac"@,
        content_type_for("flac"@) == "audio/flac"@,
        content_type_for("opus"@) == "audio/opus"@,
        content_type_for("ogg"@) == "audio/ogg"@,
        content_type_for("mp4"@) == "video/mp4"@,
        content_type_for("webm"@) == "video/webm"@,
        content_type_for("avi"@) == "video/x-msvideo"@,
        content_type_for("mkv"@) == "video/x-matroska"@,
        content_type_for("mov"@) == "video/quicktime"@,
        content_type_for("wmv"@) == "video/x-ms-wmv"@,
        content_type_for("gif"@) == "image/gif"@,
        content_type_for("jpg"@) == "image/jpeg"@,
        content_type_for("jpeg"@) == "image/jpeg"@,
        content_type_for("png"@) == "image/png"@,
        content_type_for("webp"@) == "image/webp"@,
        content_type_for("bmp"@) == "image/bmp"@,
        content_type_for("ico"@) == "image/x-icon"@,
        content_type_for("svg"@) == "image/svg+xml"@,
        content_type_for("tiff"@) == "image/tiff"@,
        content_type_for("psd"@) == "image/vnd.adobe.photoshop"@,
        content_type_for("ai"@) == "application/postscript"@,
        content_type_for("eps"@) == "application/postscript"@,
        content_type_for("mpg"@) == "video/mpeg"@,
        content_type_for("mpeg"@) == "video/mpeg"@,
        content_type_for("weba"@) == "audio/webm"@,
        content_type_for("docm"@) == "application/vnd.ms-word.document.macroEnabled.12"@,
        content_type_for("dotx"@) == "application/vnd.openxmlformats-officedocument.wordprocessingml.template"@,
        content_type_for("dotm"@) == "application/vnd.ms-word.template.macroEnabled.12"@,
        content_type_for("xlsm"@) == "application/vnd.ms-excel.sheet.macroEnabled.12"@,
        content_type_for("xltx"@) == "application/vnd.openxmlformats-officedocument.spreadsheetml.template"@,
        content_type_for("xltm"@) == "application/vnd.ms-excel.template.macroEnabled.12"@,
        content_type_for("exe"@) == "application/x-msdownload"@,
        content_type_for("msi"@) == "application/x-msdownload"@,
        content_type_for("dll"@) == "application/x-msdownload"@,
        content_type_for("cab"@) == "application/vnd.ms-cab-compressed"@,
        content_type_for("apk"@) == "application/vnd.android.package-archive"@,
{
    reveal_strlit("html");
    assert("html"@ =~= seq!['h', 't', 'm', 'l']);
    reveal_strlit("css");
    assert("css"@ =~= seq!['c', 's', 's']);
    reveal_strlit("js");
    assert("js"@ =~= seq!['j', 's']);
    reveal_strlit("json");
    assert("json"@ =~= seq!['j', 's', 'o', 'n']);
    reveal_strlit("xml");
    assert("xml"@ =~= seq!['x', 'm', 'l']);
    reveal_strlit("pdf");
    assert("pdf"@ =~= seq!['p', 'd', 'f']);
    reveal_strlit("zip");
    assert("zip"@ =~= seq!['z', 'i', 'p']);
    reveal_strlit("tar");
    assert("tar"@ =~= seq!['t', 'a', 'r']);
    reveal_strlit("gz");
    assert("gz"@ =~= seq!['g', 'z']);
    reveal_strlit("bz2");
    assert("bz2"@ =~= seq!['b', 'z', '2']);
    reveal_strlit("7z");
    assert("7z"@ =~= seq!['7', 'z']);
    reveal_strlit("rar");
    assert("rar"@ =~= seq!['r', 'a', 'r']);
    reveal_strlit("txt");
    assert("txt"@ =~= seq!['t', 'x', 't']);
    reveal_strlit("rtf");
    assert("rtf"@ =~= seq!['r', 't', 'f']);
    reveal_strlit("doc");
    assert("doc"@ =~= seq!['d', 'o', 'c']);
    reveal_strlit("docx");
    assert("docx"@ =~= seq!['d', 'o', 'c', 'x']);
    reveal_strlit("xls");
    assert("xls"@ =~= seq!['x', 'l', 's']);
    reveal_strlit("xlsx");
    assert("xlsx"@ =~= seq!['x', 'l', 's', 'x']);
    reveal_strlit("ppt");
    assert("ppt"@ =~= seq!['p', 'p', 't']);
    reveal_strlit("pptx");
    assert("pptx"@ =~= seq!['p', 'p', 't', 'x']);
    reveal_strlit("csv");
    assert("csv"@ =~= seq!['c', 's', 'v']);
    reveal_strlit("tsv");
    assert("tsv"@ =~= seq!['t', 's', 'v']);
    reveal_strlit("mp3");
    assert("mp3"@ =~= seq!['m', 'p', '3']);
    reveal_strlit("wav");
    assert("wav"@ =~= seq!['w', 'a', 'v']);
    reveal_strlit("aac");
    assert("aac"@ =~= seq!['a', 'a', 'c']);
    reveal_strlit("flac");
    assert("flac"@ =~= seq!['f', 'l', 'a', 'c']);
    reveal_strlit("opus");
    assert("opus"@ =~= seq!['o', 'p', 'u', 's']);
    reveal_strlit("ogg");
    assert("ogg"@ =~= seq!['o', 'g', 'g']);
    reveal_strlit("mp4");
    assert("mp4"@ =~= seq!['m', 'p', '4']);
    reveal_strlit("webm");
    assert("webm"@ =~= seq!['w', 'e', 'b', 'm']);
    reveal_strlit("avi");
    assert("avi"@ =~= seq!['a', 'v', 'i']);
    reveal_strlit("mkv");
    assert("mkv"@ =~= seq!['m', 'k', 'v']);
    reveal_strlit("mov");
    assert("mov"@ =~= seq!['m', 'o', 'v']);
    reveal_strlit("wmv");
    assert("wmv"@ =~= seq!['w', 'm', 'v']);
    reveal_strlit("gif");
    assert("gif"@ =~= seq!['g', 'i', 'f']);
    reveal_strlit("jpg");
    assert("jpg"@ =~= seq!['j', 'p', 'g']);
    reveal_strlit("jpeg");
    assert("jpeg"@ =~= seq!['j', 'p', 'e', 'g']);
    reveal_strlit("png");
    assert("png"@ =~= seq!['p', 'n', 'g']);
    reveal_strlit("webp");
    assert("webp"@ =~= seq!['w', 'e', 'b', 'p']);
    reveal_strlit("bmp");
    assert("bmp"@ =~= seq!['b', 'm', 'p']);
    reveal_strlit("ico");
    assert("ico"@ =~= seq!['i', 'c', 'o']);
    reveal_strlit("svg");
    assert("svg"@ =~= seq!['s', 'v', 'g']);
    reveal_strlit("tiff");
    assert("tiff"@ =~= seq!['t', 'i', 'f', 'f']);
    reveal_strlit("psd");
    assert("psd"@ =~= seq!['p', 's', 'd']);
    reveal_strlit("ai");
    assert("ai"@ =~= seq!['a', 'i']);
    reveal_strlit("eps");
    assert("eps"@ =~= seq!['e', 'p', 's']);
    reveal_strlit("mpg");
    assert("mpg"@ =~= seq!['m', 'p', 'g']);
    reveal_strlit("mpeg");
    assert("mpeg"@ =~= seq!['m', 'p', 'e', 'g']);
    reveal_strlit("weba");
    assert("weba"@ =~= seq!['w', 'e', 'b', 'a']);
    reveal_strlit("docm");
    assert("docm"@ =~= seq!['d', 'o', 'c', 'm']);
    reveal_strlit("dotx");
    assert("dotx"@ =~= seq!['d', 'o', 't', 'x']);
    reveal_strlit("dotm");
    assert("dotm"@ =~= seq!['d', 'o', 't', 'm']);
    reveal_strlit("xlsm");
    assert("xlsm"@ =~= seq!['x', 'l', 's', 'm']);
    reveal_strlit("xltx");
    assert("xltx"@ =~= seq!['x', 'l', 't', 'x']);
    reveal_strlit("xltm");
    assert("xltm"@ =~= seq!['x', 'l', 't', 'm']);
    reveal_strlit("exe");
    assert("exe"@ =~= seq!['e', 'x', 'e']);
    reveal_strlit("msi");
    assert("msi"@ =~= seq!['m', 's', 'i']);
    reveal_strlit("dll");
    assert("dll"@ =~= seq!['d', 'l', 'l']);
    reveal_strlit("cab");
    assert("cab"@ =~= seq!['c', 'a', 'b']);
    reveal_strlit("apk");
    assert("apk"@ =~= seq!['a', 'p', 'k']);
}

/// An extension that is not listed is served as `application/octet-stream`.
pub proof fn lemma_unlisted_extension(ext: Seq<char>)
    requires
        !(ext == "html"@ || ext == "css"@ || ext == "js"@ || ext == "json"@ || ext == "xml"@ || ext == "pdf"@ || ext == "zip"@ || ext == "tar"@ || ext == "gz"@ || ext == "bz2"@ || ext == "7z"@ || ext == "rar"@ || ext == "txt"@ || ext == "rtf"@ || ext == "doc"@ || ext == "docx"@ || ext == "xls"@ || ext == "xlsx"@ || ext == "ppt"@ || ext == "pptx"@ || ext == "csv"@ || ext == "tsv"@ || ext == "mp3"@ || ext == "wav"@ || ext == "aac"@ || ext == "flac"@ || ext == "opus"@ || ext == "ogg"@ || ext == "mp4"@ || ext == "webm"@ || ext == "avi"@ || ext == "mkv"@ || ext == "mov"@ || ext == "wmv"@ || ext == "gif"@ || ext == "jpg"@ || ext == "jpeg"@ || ext == "png"@ || ext == "webp"@ || ext == "bmp"@ || ext == "ico"@ || ext == "svg"@ || ext == "tiff"@ || ext == "psd"@ || ext == "ai"@ || ext == "eps"@ || ext == "mpg"@ || ext == "mpeg"@ || ext == "weba"@ || ext == "docm"@ || ext == "dotx"@ || ext == "dotm"@ || ext == "xlsm"@ || ext == "xltx"@ || ext == "xltm"@ || ext == "exe"@ || ext == "msi"@ || ext == "dll"@ || ext == "cab"@ || ext == "apk"@),
    ensures
        content_type_for(ext) == "application/octet-stream"@,
{
}

/// The part of `name` after its last `.`, or all of `name` when it has none.
pub fn file_extension(name: &str) -> (ext: &str)
    ensures
        ext@ == extension(name@),
{
    let chars = chars_of(name);
    let n = chars.len();
    let mut start: usize = 0;
    for i in 0..n
        invariant
            n == name@.len(),
            chars@ == name@,
            start <= i,
            extension(name@.take(i as int)) == name@.subrange(start as int, i as int),
    {
        proof {
            assert(name@.take(i + 1).drop_last() =~= name@.take(i as int));
        }
        if chars[i] == '.' {
            start = i + 1;
            assert(extension(name@.take(i + 1)) =~= name@.subrange(start as int, i + 1));
        } else {
            assert(extension(name@.take(i + 1)) =~= name@.subrange(start as int, i + 1));
        }
    }
    assert(name@.take(n as int) =~= name@);
    name.substring_char(start, n)
}

/// The MIME type served for the extension `ext`.
pub fn content_type_of_extension(ext: &str) -> (mime: &'static str)
    ensures
        mime@ == content_type_for(ext@),
{
    let e = String::from_str(ext);
    if e == String::from_str("html") {
        return "text/html";
    }
    if e == String::from_str("css") {
        return "text/css";
    }
    if e == String::from_str("js") {
        return "application/javascript";
    }
    if e == String::from_str("json") {
        return "application/json";
    }
    if e == String::from_str("xml") {
        return "application/xml";
    }
    if e == String::from_str("pdf") {
        return "application/pdf";
    }
    if e == String::from_str("zip") {
        return "application/zip";
    }
    if e == String::from_str("tar") {
        return "application/x-tar";
    }
    if e == String::from_str("gz") {
        return "application/gzip";
    }
    if e == String::from_str("bz2") {
        return "application/x-bzip2";
    }
    if e == String::from_str("7z") {
        return "application/x-7z-compressed";
    }
    if e == String::from_str("rar") {
        return "application/x-rar-compressed";
    }
    if e == String::from_str("txt") {
        return "text/plain";
    }
    if e == String::from_str("rtf") {
        return "application/rtf";
    }
    if e == String::from_str("doc") {
        return "application/msword";
    }
    if e == String::from_str("docx") {
        return "application/vnd.openxmlformats-officedocument.wordprocessingml.document";
    }
    if e == String::from_str("xls") {
        return "application/vnd.ms-excel";
    }
    if e == String::from_str("xlsx") {
        return "application/vnd.openxmlformats-officedocument.spreadsheetml.sheet";
    }
    if e == String::from_str("ppt") {
        return "application/vnd.ms-powerpoint";
    }
    if e == String::from_str("pptx") {
        return "application/vnd.openxmlformats-officedocument.presentationml.presentation";
    }
    if e == String::from_str("csv") {
        return "text/csv";
    }
    if e == String::from_str("tsv") {
        return "text/tab-separated-values";
    }
    if e == String::from_str("mp3") {
        return "audio/mpeg";
    }
    if e == String::from_str("wav") {
        return "audio/wav";
    }
    if e == String::from_str("aac") {
        return "audio/aac";
    }
    if e == String::from_str("flac") {
        return "audio/flac";
    }
    if e == String::from_str("opus") {
        return "audio/opus";
    }
    if e == String::from_str("ogg") {
        return "audio/ogg";
    }
    if e == String::from_str("mp4") {
        return "video/mp4";
    }
    if e == String::from_str("webm") {
        return "video/webm";
    }
    if e == String::from_str("avi") {
        return "video/x-msvideo";
    }
    if e == String::from_str("mkv") {
        return "video/x-matroska";
    }
    if e == String::from_str("mov") {
        return "video/quicktime";
    }
    if e == String::from_str("wmv") {
        return "video/x-ms-wmv";
    }
    if e == String::from_str("gif") {
        return "image/gif";
    }
    if e == String::from_str("jpg") {
        return "image/jpeg";
    }
    if e == String::from_str("jpeg") {
        return "image/jpeg";
    }
    if e == String::from_str("png") {
        return "image/png";
    }
    if e == String::from_str("webp") {
        return "image/webp";
    }
    if e == String::from_str("bmp") {
        return "image/bmp";
    }
    if e == String::from_str("ico") {
        return "image/x-icon";
    }
    if e == String::from_str("svg") {
        return "image/svg+xml";
    }
    if e == String::from_str("tiff") {
        return "image/tiff";
    }
    if e == String::from_str("psd") {
        return "image/vnd.adobe.photoshop";
    }
    if e == String::from_str("ai") {
        return "application/postscript";
    }
    if e == String::from_str("eps") {
        return "application/postscript";
    }
    if e == String::from_str("mpg") {
        return "video/mpeg";
    }
    if e == String::from_str("mpeg") {
        return "video/mpeg";
    }
    if e == String::from_str("weba") {
        return "audio/webm";
    }
    if e == String::from_str("docm") {
        return "application/vnd.ms-word.document.macroEnabled.12";
    }
    if e == String::from_str("dotx") {
        return "application/vnd.openxmlformats-officedocument.wordprocessingml.template";
    }
    if e == String::from_str("dotm") {
        return "application/vnd.ms-word.template.macroEnabled.12";
    }
    if e == String::from_str("xlsm") {
        return "application/vnd.ms-excel.sheet.macroEnabled.12";
    }
    if e == String::from_str("xltx") {
        return "application/vnd.openxmlformats-officedocument.spreadsheetml.template";
    }
    if e == String::from_str("xltm") {
        return "application/vnd.ms-excel.template.macroEnabled.12";
    }
    if e == String::from_str("exe") {
        return "application/x-msdownload";
    }
    if e == String::from_str("msi") {
        return "application/x-msdownload";
    }
    if e == String::from_str("dll") {
        return "application/x-msdownload";
    }
    if e == String::from_str("cab") {
        return "application/vnd.ms-cab-compressed";
    }
    if e == String::from_str("apk") {
        return "application/vnd.android.package-archive";
    }
    "application/octet-stream"
}

/// The MIME type under which the file `filename` is served: chosen by the part of the
/// name after its last `.`, `application/octet-stream` for any extension not listed.
pub fn check_content_type(filename: &String) -> (mime: &'static str)
    ensures
        mime@ == content_type_for(extension(filename@)),
{
    content_type_of_extension(file_extension(filename.as_str()))
}

} // verus!
