//! Signing starts outside: a command line that names a document, a site's
//! `afirma://` launch, or the help.
use vstd::prelude::*;

use crate::documents::{dropped_document, Dropped, DroppedDocumentView, OpenedDocuments};
use crate::text::{chars_of, same_text, upper, upper_char};

verus! {

/// An invocation as it came: the whole command line, the executable first,
/// and the folder it was run from.
#[derive(Clone, Debug, Default, PartialEq, Eq)]
pub struct Invocation {
    pub command_line: Vec<String>,
    pub folder: String,
}

/// The scheme of a site's launch, as it reads once upper-cased.
pub open spec fn scheme() -> Seq<char> {
    "AFIRMA://"@
}

/// Whether an argument is a site's launch: it begins with the scheme,
/// whatever the case of its letters.
pub open spec fn is_protocol_url(argument: Seq<char>) -> bool {
    &&& scheme().len() <= argument.len()
    &&& argument.take(scheme().len() as int).map_values(|c: char| upper(c)) == scheme()
}

/// Whether an argument is recognised as a site's launch.
pub fn is_a_protocol_url(argument: &str) -> (r: bool)
    ensures
        r == is_protocol_url(argument@),
{
    let text = chars_of(argument);
    let wanted = chars_of("AFIRMA://");
    if text.len() < wanted.len() {
        return false;
    }
    let mut i: usize = 0;
    while i < wanted.len()
        invariant
            text@ == argument@,
            wanted@ == scheme(),
            wanted.len() <= text.len(),
            0 <= i <= wanted.len(),
            forall|k: int| 0 <= k < i ==> upper(#[trigger] text@[k]) == wanted@[k],
        decreases wanted.len() - i,
    {
        if upper_char(text[i]) != wanted[i] {
            assert(text@.take(wanted@.len() as int).map_values(|c: char| upper(c))[i as int] != scheme()[i as int]);
            return false;
        }
        i = i + 1;
    }
    assert(text@.take(wanted@.len() as int).map_values(|c: char| upper(c)) =~= scheme());
    true
}

/// The first argument after the executable that is a site's launch.
pub open spec fn first_launch(arguments: Seq<String>, from: int) -> Option<int>
    decreases arguments.len() - from,
{
    if from < 1 || from >= arguments.len() {
        None
    } else if is_protocol_url(arguments[from]@) {
        Some(from)
    } else {
        first_launch(arguments, from + 1)
    }
}

proof fn lemma_first_launch(arguments: Seq<String>, from: int)
    requires
        1 <= from,
    ensures
        match first_launch(arguments, from) {
            Some(i) => from <= i < arguments.len() && is_protocol_url(arguments[i]@) && forall|j: int|
                from <= j < i ==> !is_protocol_url(#[trigger] arguments[j]@),
            None => forall|j: int| from <= j < arguments.len() ==> !is_protocol_url(#[trigger] arguments[j]@),
        },
    decreases arguments.len() - from,
{
    if from < arguments.len() && !is_protocol_url(arguments[from]@) {
        lemma_first_launch(arguments, from + 1);
    }
}

impl Invocation {
    /// The site's launch the invocation carries, whole and as it came; the
    /// executable never counts.
    pub fn site_launch(&self) -> (r: Option<&str>)
        ensures
            match first_launch(self.command_line@, 1) {
                Some(i) => r matches Some(url) && url@ == self.command_line@[i]@,
                None => r is None,
            },
    {
        let mut k: usize = 1;
        while k < self.command_line.len()
            invariant
                1 <= k,
                first_launch(self.command_line@, 1) == first_launch(self.command_line@, k as int),
            decreases self.command_line.len() - k,
        {
            if is_a_protocol_url(self.command_line[k].as_str()) {
                return Some(self.command_line[k].as_str());
            }
            k = k + 1;
        }
        None
    }
}

/// The three ways of asking for the help.
pub const HELP_FLAGS: [&'static str; 3] = ["--help", "-help", "-h"];

/// The help, as it goes to the standard output.
pub const HELP: &'static str = "\
rfirma — firma y cofirma de documentos PDF en PAdES.

Uso:
  rfirma [documento…]
  rfirma «afirma://…»
  rfirma --help

Argumentos:
  documento           Ruta de un PDF: se abre en la ventana, listo para firmar.
                      Lo que no sea un PDF abre la ventana igual y lo dice.
  afirma://…          La llamada de una sede electrónica. La entrega el
                      navegador a través del manejador del esquema; a mano,
                      sirve para probar.

Opciones:
  -h, -help, --help   Muestra esta ayuda y termina.

Lo que rFirma atiende de una sede (protocolo 4, sobre wss:// en 127.0.0.1):
  websocket           Abre el canal en uno de los puertos que sortea la sede.
  echo                Comprobación de vida.
  selectcert          Elegir certificado, consentido por la persona.
  sign                Firma PAdES de un PDF.
  cosign              Cofirma PAdES de un PDF.
  countersign, save y signandsave se rechazan con su código del catálogo.

Compatibilidad con AutoFirma:
  rFirma la sustituye en la llamada desde el navegador —el esquema afirma://—,
  que es como la usan las sedes electrónicas. NO implementa su línea de órdenes
  de firma desatendida, así que ninguna de estas órdenes ni de estos parámetros
  existe aquí:

    órdenes      sign, cosign, countersign, listaliases, verify, batchsign
    parámetros   -i, -o, -alias, -filter, -store, -format, -password,
                 -algorithm, -config, -operation, -gui, -certgui, -preurl,
                 -posturl, -hformat, -halgorithm, -r, -xml

  Toda firma la consiente la persona delante de la ventana. No hay modo
  desatendido y no está previsto que lo haya.
";

/// Whether an argument is one of the three ways of asking for the help.
pub open spec fn is_help_flag(argument: Seq<char>) -> bool {
    argument == "--help"@ || argument == "-help"@ || argument == "-h"@
}

/// Whether the command line asks for the help, in any position after the
/// executable.
pub fn help_was_asked_for(arguments: &[&str]) -> (r: bool)
    ensures
        r == exists|k: int| 1 <= k < arguments@.len() && is_help_flag(#[trigger] arguments@[k]@),
{
    let mut k: usize = 1;
    while k < arguments.len()
        invariant
            1 <= k,
            forall|j: int| 1 <= j < k && j < arguments@.len() ==> !is_help_flag(#[trigger] arguments@[j]@),
        decreases arguments.len() - k,
    {
        let argument = arguments[k];
        if same_text(argument, HELP_FLAGS[0]) || same_text(argument, HELP_FLAGS[1]) || same_text(
            argument,
            HELP_FLAGS[2],
        ) {
            return true;
        }
        k = k + 1;
    }
    false
}

/// What an invocation opens, as the window understands it: nothing for a
/// site's launch, which is no file at all, and otherwise what the files it
/// names turned out to be.
pub fn invoked_document(invocation: &Invocation, dropped: Dropped, opened: &mut OpenedDocuments) -> (r: Option<
    DroppedDocumentView,
>)
    requires
        old(opened).well_formed(),
        old(opened).minted() < u64::MAX,
    ensures
        final(opened).well_formed(),
        first_launch(invocation.command_line@, 1) is Some ==> r is None && final(opened)@ == old(opened)@,
        first_launch(invocation.command_line@, 1) is None ==> (dropped is Nothing <==> r is None),
        first_launch(invocation.command_line@, 1) is None && !(dropped is Opened) ==> final(opened)@ == old(opened)@,
{
    if invocation.site_launch().is_some() {
        return None;
    }
    dropped_document(dropped, opened)
}

/// What a second invocation does to the window that was already open.
#[derive(Debug)]
pub enum SecondInvocation {
    /// A signature is half done, or nothing was named to open.
    NothingHappens,
    /// What the window had is replaced by this, without asking.
    ReplacesWhatWasThere(Box<DroppedDocumentView>),
    /// A site's launch opens its own window and replaces nothing.
    OpensItsOwnWindow(String),
}

/// A second invocation replaces what was there, without asking; a live
/// signature is never replaced, and a site's launch opens its own window
/// whatever else is going on.
pub fn second_invocation(
    invocation: &Invocation,
    dropped: Dropped,
    opened: &mut OpenedDocuments,
    signing_is_live: bool,
) -> (r: SecondInvocation)
    requires
        old(opened).well_formed(),
        old(opened).minted() < u64::MAX,
    ensures
        final(opened).well_formed(),
        match first_launch(invocation.command_line@, 1) {
            Some(i) => r matches SecondInvocation::OpensItsOwnWindow(url) && url@
                == invocation.command_line@[i]@ && final(opened)@ == old(opened)@,
            None => if signing_is_live {
                r is NothingHappens && final(opened)@ == old(opened)@
            } else {
                (dropped is Nothing <==> r is NothingHappens) && (!(dropped is Opened)
                    ==> final(opened)@ == old(opened)@)
            },
        },
{
    if let Some(url) = invocation.site_launch() {
        return SecondInvocation::OpensItsOwnWindow(url.to_owned());
    }
    if signing_is_live {
        return SecondInvocation::NothingHappens;
    }
    match invoked_document(invocation, dropped, opened) {
        Some(view) => SecondInvocation::ReplacesWhatWasThere(Box::new(view)),
        None => SecondInvocation::NothingHappens,
    }
}

/// What the invocation that opened the window brought, until the window
/// asks for it; it is handed over once.
#[derive(Debug, Default)]
pub struct PendingInvocation {
    invocation: Option<Invocation>,
}

impl PendingInvocation {
    pub closed spec fn pending(&self) -> Option<Invocation> {
        self.invocation
    }

    /// The invocation left to be picked up.
    pub fn of(invocation: Invocation) -> (p: PendingInvocation)
        ensures
            p.pending() == Some(invocation),
    {
        PendingInvocation { invocation: Some(invocation) }
    }

    /// Picks it up, and it is no longer pending.
    pub fn take(&mut self) -> (r: Option<Invocation>)
        ensures
            r == old(self).pending(),
            final(self).pending() is None,
    {
        self.invocation.take()
    }
}

} // verus!
