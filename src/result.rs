//! The success/failure adapter.
use vstd::prelude::*;
use crate::render::{escape_free, ColorDisplay, Format};
use crate::sequence::lemma_appended;

verus! {

/// How a `Result` is rendered: the prefix of the variant present, then the
/// held value under that variant's descriptor.
#[derive(Clone, Copy)]
pub struct ResultFormat<OF, EF> {
    pub ok_prefix: &'static str,
    pub ok_format: OF,
    pub err_prefix: &'static str,
    pub err_format: EF,
}

impl<OF, EF, O: ColorDisplay<OF>, E: ColorDisplay<EF>> ColorDisplay<ResultFormat<OF, EF>> for Result<O, E> {
    open spec fn renders(&self, format: &ResultFormat<OF, EF>, out: Seq<char>) -> bool {
        match self {
            Ok(o) => {
                let n = format.ok_prefix@.len() as int;
                &&& out.len() >= n
                &&& out.take(n) == format.ok_prefix@
                &&& o.renders(&format.ok_format, out.skip(n))
            },
            Err(e) => {
                let n = format.err_prefix@.len() as int;
                &&& out.len() >= n
                &&& out.take(n) == format.err_prefix@
                &&& e.renders(&format.err_format, out.skip(n))
            },
        }
    }

    open spec fn traversable(&self) -> bool {
        match self {
            Ok(o) => o.traversable(),
            Err(e) => e.traversable(),
        }
    }

    open spec fn monochrome(format: &ResultFormat<OF, EF>) -> bool {
        &&& O::monochrome(&format.ok_format)
        &&& E::monochrome(&format.err_format)
        &&& escape_free(format.ok_prefix@)
        &&& escape_free(format.err_prefix@)
    }

    open spec fn plain_payload(&self) -> bool {
        match self {
            Ok(o) => o.plain_payload(),
            Err(e) => e.plain_payload(),
        }
    }

    fn color_fmt(&self, sink: &mut String, format: &ResultFormat<OF, EF>) {
        let ghost start = sink@;
        match self {
            Ok(ok) => {
                sink.append(format.ok_prefix);
                let ghost mid = sink@;
                ok.color_fmt(sink, &format.ok_format);
                proof {
                    let inner = sink@.subrange(mid.len() as int, sink@.len() as int);
                    let out = format.ok_prefix@ + inner;
                    assert(sink@ =~= mid + inner);
                    assert(sink@ =~= start + out);
                    lemma_appended(start, sink@, out);
                    assert(out.take(format.ok_prefix@.len() as int) =~= format.ok_prefix@);
                    assert(out.skip(format.ok_prefix@.len() as int) =~= inner);
                }
            },
            Err(err) => {
                sink.append(format.err_prefix);
                let ghost mid = sink@;
                err.color_fmt(sink, &format.err_format);
                proof {
                    let inner = sink@.subrange(mid.len() as int, sink@.len() as int);
                    let out = format.err_prefix@ + inner;
                    assert(sink@ =~= mid + inner);
                    assert(sink@ =~= start + out);
                    lemma_appended(start, sink@, out);
                    assert(out.take(format.err_prefix@.len() as int) =~= format.err_prefix@);
                    assert(out.skip(format.err_prefix@.len() as int) =~= inner);
                }
            },
        }
    }

    proof fn lemma_monochrome(&self, format: &ResultFormat<OF, EF>, out: Seq<char>) {
        match self {
            Ok(o) => {
                let n = format.ok_prefix@.len() as int;
                o.lemma_monochrome(&format.ok_format, out.skip(n));
                assert(out =~= out.take(n) + out.skip(n));
            },
            Err(e) => {
                let n = format.err_prefix@.len() as int;
                e.lemma_monochrome(&format.err_format, out.skip(n));
                assert(out =~= out.take(n) + out.skip(n));
            },
        }
    }
}

/// Exactly one branch renders: a success value writes the success prefix
/// followed by a rendering of the value under the success descriptor, a
/// failure value the failure prefix followed by a rendering under the
/// failure descriptor.
pub proof fn lemma_result_exclusive<OF, EF, O: ColorDisplay<OF>, E: ColorDisplay<EF>>(
    r: Result<O, E>,
    format: ResultFormat<OF, EF>,
    out: Seq<char>,
)
    requires
        r.renders(&format, out),
    ensures
        r is Ok ==> out == format.ok_prefix@ + out.skip(format.ok_prefix@.len() as int)
            && r->Ok_0.renders(&format.ok_format, out.skip(format.ok_prefix@.len() as int)),
        r is Err ==> out == format.err_prefix@ + out.skip(format.err_prefix@.len() as int)
            && r->Err_0.renders(&format.err_format, out.skip(format.err_prefix@.len() as int)),
{
    match r {
        Ok(_) => {
            let n = format.ok_prefix@.len() as int;
            assert(out =~= out.take(n) + out.skip(n));
        },
        Err(_) => {
            let n = format.err_prefix@.len() as int;
            assert(out =~= out.take(n) + out.skip(n));
        },
    }
}

impl<OF: Format, EF: Format> Format for ResultFormat<OF, EF> {
    open spec fn colored_spec(indent: u16) -> ResultFormat<OF, EF> {
        ResultFormat {
            ok_prefix: "\u{2705} ",
            ok_format: OF::colored_spec(indent),
            err_prefix: "\u{274c} ",
            err_format: EF::colored_spec(indent),
        }
    }

    open spec fn monochrome_spec(indent: u16) -> ResultFormat<OF, EF> {
        ResultFormat {
            ok_prefix: "\u{2705} ",
            ok_format: OF::monochrome_spec(indent),
            err_prefix: "\u{274c} ",
            err_format: EF::monochrome_spec(indent),
        }
    }

    fn colored(indent: u16) -> ResultFormat<OF, EF> {
        ResultFormat {
            ok_prefix: "\u{2705} ",
            ok_format: OF::colored(indent),
            err_prefix: "\u{274c} ",
            err_format: EF::colored(indent),
        }
    }

    fn monochrome(indent: u16) -> ResultFormat<OF, EF> {
        ResultFormat {
            ok_prefix: "\u{2705} ",
            ok_format: OF::monochrome(indent),
            err_prefix: "\u{274c} ",
            err_format: EF::monochrome(indent),
        }
    }

    fn standard(indent: u16) -> ResultFormat<OF, EF> {
        ResultFormat::colored(indent)
    }
}

} // verus!
