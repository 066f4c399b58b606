//! Encoder dispatch: the options bag, its per-format validity rules, and
//! the validated encode request.
//!
//! The options bag is an association list from lowercase string keys to
//! string values; a key's binding is its first entry. JPEG requires a
//! `quality` value parseable as `u8`; PNM requires a `subtype`, and every
//! subtype but `arbitrarymap` also requires an `encoding` of `binary` or
//! `ascii`. All other formats ignore the bag.

use vstd::prelude::*;
use vstd::string::StrSliceExecFns;
use vstd::string::StringExecFns;

use crate::error::{ImageRsError, UnsupportedKind};
use crate::datatypes::ImageRsOutputFormat;

verus! {

/// Sample encoding of a binary/ascii PNM subtype.
#[derive(Clone, Copy, Debug, PartialEq, Eq, Structural)]
pub enum PnmEncoding {
    Binary,
    Ascii,
}

/// A validated PNM encode request.
#[derive(Clone, Copy, Debug, PartialEq, Eq, Structural)]
pub enum PnmParams {
    Bitmap(PnmEncoding),
    Graymap(PnmEncoding),
    Pixmap(PnmEncoding),
    ArbitraryMap,
}

/// A fully validated encode request: the format together with every
/// parameter its codec takes from the options bag.
#[derive(Clone, Copy, Debug, PartialEq, Eq, Structural)]
pub enum EncodeFormat {
    Png,
    Jpeg(u8),
    Pnm(PnmParams),
    Gif,
    Ico,
    Bmp,
    Farbfeld,
    Tga,
    Exr,
    Tiff,
    Qoi,
    Webp,
}

/// The options bag as a sequence of key/value character sequences.
pub open spec fn opts_view(opts: Seq<(String, String)>) -> Seq<(Seq<char>, Seq<char>)> {
    opts.map_values(|p: (String, String)| (p.0@, p.1@))
}

/// First binding of `key` in an association list.
pub open spec fn spec_lookup(s: Seq<(Seq<char>, Seq<char>)>, key: Seq<char>) -> Option<Seq<char>>
    decreases s.len(),
{
    if s.len() == 0 {
        None
    } else if s[0].0 == key {
        Some(s[0].1)
    } else {
        spec_lookup(s.drop_first(), key)
    }
}

/// Find the first binding of `key` in the options bag.
pub fn options_get<'a>(opts: &'a Vec<(String, String)>, key: &String) -> (r: Option<&'a String>)
    ensures
        match r {
            Some(v) => spec_lookup(opts_view(opts@), key@) == Some(v@),
            None => spec_lookup(opts_view(opts@), key@) is None,
        },
{
    let ghost view = opts_view(opts@);
    proof {
        assert(view.skip(0) =~= view);
    }
    let mut i: usize = 0;
    while i < opts.len()
        invariant
            0 <= i <= opts@.len(),
            view == opts_view(opts@),
            view.len() == opts@.len(),
            spec_lookup(view, key@) == spec_lookup(view.skip(i as int), key@),
        decreases opts@.len() - i,
    {
        proof {
            assert(view[i as int] == (opts@[i as int].0@, opts@[i as int].1@));
            assert(view.skip(i as int)[0] == view[i as int]);
        }
        if opts[i].0 == *key {
            return Some(&opts[i].1);
        }
        proof {
            assert(view.skip(i as int).drop_first() =~= view.skip(i as int + 1));
        }
        i += 1;
    }
    proof {
        assert(view.skip(i as int).len() == 0);
    }
    None
}

/// A decimal digit.
pub open spec fn is_dec_digit(c: char) -> bool {
    '0' as int <= c as int && c as int <= '9' as int
}

/// Numeric value of a decimal digit.
pub open spec fn digit_val(c: char) -> int {
    c as int - '0' as int
}

/// Value of a digit string read most-significant first.
pub open spec fn digits_val(s: Seq<char>) -> int
    decreases s.len(),
{
    if s.len() == 0 {
        0
    } else {
        digits_val(s.drop_last()) * 10 + digit_val(s.last())
    }
}

/// Every character is a decimal digit.
pub open spec fn all_dec_digits(s: Seq<char>) -> bool {
    forall|i: int| 0 <= i < s.len() ==> is_dec_digit(#[trigger] s[i])
}

/// The digit part of an unsigned decimal string: a single leading `+` is
/// allowed, as `str::parse::<u8>` does.
pub open spec fn u8_digits(s: Seq<char>) -> Seq<char> {
    if s.len() > 0 && s[0] == '+' {
        s.drop_first()
    } else {
        s
    }
}

/// Whether `str::parse::<u8>` accepts the string: a non-empty digit string
/// after the optional sign, with value at most 255.
pub open spec fn parses_as_u8(s: Seq<char>) -> bool {
    let d = u8_digits(s);
    d.len() > 0 && all_dec_digits(d) && digits_val(d) <= 255
}

/// The value `str::parse::<u8>` yields on an accepted string.
pub open spec fn u8_value_of(s: Seq<char>) -> int {
    digits_val(u8_digits(s))
}

/// A digit string's value is never negative.
pub proof fn lemma_digits_val_nonneg(s: Seq<char>)
    requires
        all_dec_digits(s),
    ensures
        digits_val(s) >= 0,
    decreases s.len(),
{
    if s.len() > 0 {
        assert(all_dec_digits(s.drop_last()));
        lemma_digits_val_nonneg(s.drop_last());
    }
}

/// Extending a digit string never lowers its value.
pub proof fn lemma_digits_val_prefix(s: Seq<char>, n: int)
    requires
        all_dec_digits(s),
        0 <= n <= s.len(),
    ensures
        digits_val(s.take(n)) <= digits_val(s),
    decreases s.len() - n,
{
    if n == s.len() {
        assert(s.take(n) =~= s);
    } else {
        assert(s.take(n + 1).drop_last() =~= s.take(n));
        assert(s.take(n + 1).last() == s[n]);
        assert(all_dec_digits(s.take(n)));
        lemma_digits_val_nonneg(s.take(n));
        lemma_digits_val_prefix(s, n + 1);
    }
}

/// Parse an unsigned decimal byte as `str::parse::<u8>` would: an optional
/// leading `+`, then at least one digit, value at most 255.
pub fn parse_u8(s: &str) -> (r: Option<u8>)
    ensures
        r is Some <==> parses_as_u8(s@),
        r matches Some(v) ==> v as int == u8_value_of(s@),
{
    let n = s.unicode_len();
    let start: usize = if n > 0 && s.get_char(0) == '+' {
        1
    } else {
        0
    };
    let ghost d = u8_digits(s@);
    proof {
        assert(d.len() == s@.len() - start);
        assert(forall|j: int| 0 <= j < d.len() ==> d[j] == s@[j + start]);
    }
    if n == start {
        return None;
    }
    let mut acc: u32 = 0;
    let mut i: usize = start;
    while i < n
        invariant
            start <= i <= n,
            n == s@.len(),
            d == u8_digits(s@),
            d.len() == n - start,
            forall|j: int| 0 <= j < d.len() ==> d[j] == s@[j + start],
            all_dec_digits(d.take(i - start)),
            acc as int == digits_val(d.take(i - start)),
            acc <= 255,
        decreases n - i,
    {
        let c = s.get_char(i);
        let cv = c as u32;
        if cv < 48 || cv > 57 {
            proof {
                assert(d[i - start] == c);
                assert(!is_dec_digit(c));
            }
            return None;
        }
        let digit: u32 = cv - 48;
        let acc2: u32 = acc * 10 + digit;
        proof {
            assert(d.take(i - start + 1).drop_last() =~= d.take(i - start));
            assert(d.take(i - start + 1).last() == d[i - start]);
            assert(d[i - start] == c);
            assert(acc2 as int == digits_val(d.take(i - start + 1)));
        }
        if acc2 > 255 {
            proof {
                if all_dec_digits(d) {
                    lemma_digits_val_prefix(d, i - start + 1);
                }
            }
            return None;
        }
        acc = acc2;
        i += 1;
    }
    proof {
        assert(d.take(i - start) =~= d);
    }
    Some(acc as u8)
}

/// What the PNM rules make of the options bag: `subtype` is required;
/// `arbitrarymap` stands alone, while `bitmap`, `graymap` and `pixmap` also
/// require an `encoding` of `binary` or `ascii`. Anything else is a
/// [`ImageRsError::BadArgument`].
pub open spec fn spec_pnm_format(opts: Seq<(Seq<char>, Seq<char>)>) -> Result<
    EncodeFormat,
    ImageRsError,
> {
    match spec_lookup(opts, "subtype"@) {
        None => Err(ImageRsError::BadArgument),
        Some(st) => {
            if st == "arbitrarymap"@ {
                Ok(EncodeFormat::Pnm(PnmParams::ArbitraryMap))
            } else if st == "bitmap"@ || st == "graymap"@ || st == "pixmap"@ {
                match spec_lookup(opts, "encoding"@) {
                    None => Err(ImageRsError::BadArgument),
                    Some(enc) => {
                        if enc == "binary"@ || enc == "ascii"@ {
                            let e = if enc == "binary"@ {
                                PnmEncoding::Binary
                            } else {
                                PnmEncoding::Ascii
                            };
                            if st == "bitmap"@ {
                                Ok(EncodeFormat::Pnm(PnmParams::Bitmap(e)))
                            } else if st == "graymap"@ {
                                Ok(EncodeFormat::Pnm(PnmParams::Graymap(e)))
                            } else {
                                Ok(EncodeFormat::Pnm(PnmParams::Pixmap(e)))
                            }
                        } else {
                            Err(ImageRsError::BadArgument)
                        }
                    },
                }
            } else {
                Err(ImageRsError::BadArgument)
            }
        },
    }
}

/// What the encode dispatch makes of a format and its options bag: the
/// validated request, or the exact error. JPEG requires a parseable
/// `quality`; PNM follows [`spec_pnm_format`]; AVIF is not available to
/// this build of the codecs; every other format takes no options.
pub open spec fn spec_encode_format(fmt: ImageRsOutputFormat, opts: Seq<(Seq<char>, Seq<char>)>)
    -> Result<EncodeFormat, ImageRsError> {
    match fmt {
        ImageRsOutputFormat::Png => Ok(EncodeFormat::Png),
        ImageRsOutputFormat::Jpeg => match spec_lookup(opts, "quality"@) {
            None => Err(ImageRsError::BadArgument),
            Some(q) => if parses_as_u8(q) {
                Ok(EncodeFormat::Jpeg(u8_value_of(q) as u8))
            } else {
                Err(ImageRsError::BadArgument)
            },
        },
        ImageRsOutputFormat::Pnm => spec_pnm_format(opts),
        ImageRsOutputFormat::Gif => Ok(EncodeFormat::Gif),
        ImageRsOutputFormat::Ico => Ok(EncodeFormat::Ico),
        ImageRsOutputFormat::Bmp => Ok(EncodeFormat::Bmp),
        ImageRsOutputFormat::Farbfeld => Ok(EncodeFormat::Farbfeld),
        ImageRsOutputFormat::Tga => Ok(EncodeFormat::Tga),
        ImageRsOutputFormat::Exr => Ok(EncodeFormat::Exr),
        ImageRsOutputFormat::Tiff => Ok(EncodeFormat::Tiff),
        ImageRsOutputFormat::Avif => Err(ImageRsError::Unsupported(UnsupportedKind::Format)),
        ImageRsOutputFormat::Qoi => Ok(EncodeFormat::Qoi),
        ImageRsOutputFormat::Webp => Ok(EncodeFormat::Webp),
    }
}

/// Validate a format's options bag and build the encode request, exactly as
/// [`spec_encode_format`] states.
pub fn into_output_format(format: ImageRsOutputFormat, options: &Vec<(String, String)>) -> (r:
    Result<EncodeFormat, ImageRsError>)
    ensures
        r == spec_encode_format(format, opts_view(options@)),
{
    match format {
        ImageRsOutputFormat::Png => Ok(EncodeFormat::Png),
        ImageRsOutputFormat::Jpeg => {
            let key = String::from_str("quality");
            match options_get(options, &key) {
                None => Err(ImageRsError::BadArgument),
                Some(q) => match parse_u8(q.as_str()) {
                    Some(v) => {
                        proof {
                            lemma_digits_val_nonneg(u8_digits(q@));
                        }
                        Ok(EncodeFormat::Jpeg(v))
                    },
                    None => Err(ImageRsError::BadArgument),
                },
            }
        },
        ImageRsOutputFormat::Pnm => {
            let skey = String::from_str("subtype");
            match options_get(options, &skey) {
                None => Err(ImageRsError::BadArgument),
                Some(st) => {
                    let arbitrarymap = String::from_str("arbitrarymap");
                    if *st == arbitrarymap {
                        Ok(EncodeFormat::Pnm(PnmParams::ArbitraryMap))
                    } else {
                        let bitmap = String::from_str("bitmap");
                        let graymap = String::from_str("graymap");
                        let pixmap = String::from_str("pixmap");
                        let is_bitmap = *st == bitmap;
                        let is_graymap = *st == graymap;
                        let is_pixmap = *st == pixmap;
                        if is_bitmap || is_graymap || is_pixmap {
                            let ekey = String::from_str("encoding");
                            match options_get(options, &ekey) {
                                None => Err(ImageRsError::BadArgument),
                                Some(enc) => {
                                    let binary = String::from_str("binary");
                                    let ascii = String::from_str("ascii");
                                    let is_binary = *enc == binary;
                                    let is_ascii = *enc == ascii;
                                    if is_binary || is_ascii {
                                        let e = if is_binary {
                                            PnmEncoding::Binary
                                        } else {
                                            PnmEncoding::Ascii
                                        };
                                        if is_bitmap {
                                            Ok(EncodeFormat::Pnm(PnmParams::Bitmap(e)))
                                        } else if is_graymap {
                                            Ok(EncodeFormat::Pnm(PnmParams::Graymap(e)))
                                        } else {
                                            Ok(EncodeFormat::Pnm(PnmParams::Pixmap(e)))
                                        }
                                    } else {
                                        Err(ImageRsError::BadArgument)
                                    }
                                },
                            }
                        } else {
                            Err(ImageRsError::BadArgument)
                        }
                    }
                },
            }
        },
        ImageRsOutputFormat::Gif => Ok(EncodeFormat::Gif),
        ImageRsOutputFormat::Ico => Ok(EncodeFormat::Ico),
        ImageRsOutputFormat::Bmp => Ok(EncodeFormat::Bmp),
        ImageRsOutputFormat::Farbfeld => Ok(EncodeFormat::Farbfeld),
        ImageRsOutputFormat::Tga => Ok(EncodeFormat::Tga),
        ImageRsOutputFormat::Exr => Ok(EncodeFormat::Exr),
        ImageRsOutputFormat::Tiff => Ok(EncodeFormat::Tiff),
        ImageRsOutputFormat::Avif => Err(ImageRsError::Unsupported(UnsupportedKind::Format)),
        ImageRsOutputFormat::Qoi => Ok(EncodeFormat::Qoi),
        ImageRsOutputFormat::Webp => Ok(EncodeFormat::Webp),
    }
}

} // verus!
