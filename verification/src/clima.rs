use vstd::prelude::*;

verus! {

/// The rows that the `csv` crate reads from `conteudo` under the weather
/// file's settings (see `ler_registros_csv`): each data row as the bytes of
/// its fields, or `None` where the reader reported an error for that row.
pub uninterp spec fn registros_csv(conteudo: Seq<u8>) -> Seq<Option<Seq<Seq<u8>>>>;

/// Calls `csv::ReaderBuilder` (delimiter `;`, `Trim::All`, first row taken
/// as the header) on `conteudo` and collects what `Reader::records` yields,
/// each `StringRecord` as the bytes of its fields and each error as `None`.
/// The contract claims only that the result is `registros_csv` of the
/// bytes: the same bytes always give the same rows. What the rows are
/// (quoting, trimming, the header) is the crate's and is not stated.
#[verifier::external_body]
fn ler_registros_csv(conteudo: &[u8]) -> (r: Vec<Option<Vec<Vec<u8>>>>)
    ensures
        r.deep_view() == registros_csv(conteudo@),
{
    let mut leitor = csv::ReaderBuilder::new()
        .delimiter(b';')
        .trim(csv::Trim::All)
        .from_reader(conteudo);
    leitor.records().map(|r| r.ok().map(|reg| reg.iter().map(|c| c.as_bytes().to_vec()).collect())).collect()
}

/// Why a weather row could not be taken.
#[derive(Clone, Copy, Debug, PartialEq, Eq, Structural)]
pub enum ErroLeitura {
    /// The reader reported an error on a row before the wanted one was reached.
    Registro,
    /// The wanted row lacks the precipitation or the temperature column.
    CampoNaoEncontrado,
}

/// The wanted weather row: its precipitation and temperature fields, with
/// decimal commas turned into points, and the row counter for the next reading.
#[derive(Debug, PartialEq, Eq)]
pub struct LeituraClima {
    pub precipitacao: Vec<u8>,
    pub temperatura: Vec<u8>,
    pub proximo_contador: i128,
}

/// `s` with every `,` replaced by `.`.
pub open spec fn troca_virgulas(s: Seq<u8>) -> Seq<u8> {
    s.map_values(|b: u8| if b == 44u8 { 46u8 } else { b })
}

/// Whether the rows before the `n`-th (1-based) were all read without error.
pub open spec fn sem_erro_antes(regs: Seq<Option<Seq<Seq<u8>>>>, n: int) -> bool {
    forall|j: int| 0 <= j < n - 1 ==> #[trigger] regs[j] is Some
}

/// What reading row number `contador` (1-based, counting data rows) gives:
/// columns 2 and 3 of that row when every row up to it was read; an error
/// when a row up to it failed or, if it is not there, when any row failed;
/// nothing otherwise.
pub open spec fn leitura_esperada(regs: Seq<Option<Seq<Seq<u8>>>>, contador: int) -> Result<
    Option<(Seq<u8>, Seq<u8>)>,
    ErroLeitura,
> {
    if 1 <= contador <= regs.len() && sem_erro_antes(regs, contador) && regs[contador - 1] is Some {
        let campos = regs[contador - 1]->0;
        if campos.len() < 4 {
            Err(ErroLeitura::CampoNaoEncontrado)
        } else {
            Ok(Some((troca_virgulas(campos[2]), troca_virgulas(campos[3]))))
        }
    } else if exists|j: int| 0 <= j < regs.len() && #[trigger] regs[j] is None {
        Err(ErroLeitura::Registro)
    } else {
        Ok(None)
    }
}

/// A reading as plain values.
pub open spec fn vista_leitura(r: Result<Option<LeituraClima>, ErroLeitura>) -> Result<
    Option<(Seq<u8>, Seq<u8>)>,
    ErroLeitura,
> {
    match r {
        Ok(Some(l)) => Ok(Some((l.precipitacao@, l.temperatura@))),
        Ok(None) => Ok(None),
        Err(e) => Err(e),
    }
}

/// Turns every decimal comma of a field into a point.
pub fn trocar_virgulas(campo: &Vec<u8>) -> (r: Vec<u8>)
    ensures
        r@ == troca_virgulas(campo@),
{
    let mut r: Vec<u8> = Vec::new();
    let mut i: usize = 0;
    while i < campo.len()
        invariant
            i <= campo@.len(),
            r@ == troca_virgulas(campo@.subrange(0, i as int)),
        decreases campo@.len() - i,
    {
        let b = campo[i];
        if b == 44u8 {
            r.push(46u8);
        } else {
            r.push(b);
        }
        assert(campo@.subrange(0, i + 1) =~= campo@.subrange(0, i as int).push(b));
        assert(troca_virgulas(campo@.subrange(0, i + 1)) =~= troca_virgulas(campo@.subrange(0, i as int)).push(
            if b == 44u8 { 46u8 } else { b },
        ));
        i += 1;
    }
    assert(campo@.subrange(0, campo@.len() as int) =~= campo@);
    r
}

/// Takes data row number `contador` (1-based) from rows already read.
pub fn selecionar_linha(registros: &Vec<Option<Vec<Vec<u8>>>>, contador: i128) -> (r: Result<
    Option<LeituraClima>,
    ErroLeitura,
>)
    ensures
        vista_leitura(r) == leitura_esperada(registros.deep_view(), contador as int),
        r matches Ok(Some(l)) ==> l.proximo_contador == contador + 1,
{
    let ghost regs = registros.deep_view();
    let mut current_line: i128 = 0;
    let mut i: usize = 0;
    while i < registros.len()
        invariant
            regs == registros.deep_view(),
            i <= registros@.len(),
            current_line == i,
            forall|j: int| 0 <= j < i ==> #[trigger] regs[j] is Some,
            !(1 <= contador <= i),
        decreases registros@.len() - i,
    {
        match &registros[i] {
            None => {
                assert(regs[i as int] is None);
                return Err(ErroLeitura::Registro);
            },
            Some(campos) => {
                assert(regs[i as int] == Some(campos.deep_view()));
                current_line += 1;
                if current_line == contador {
                    assert(sem_erro_antes(regs, contador as int));
                    if campos.len() < 3 {
                        return Err(ErroLeitura::CampoNaoEncontrado);
                    }
                    if campos.len() < 4 {
                        return Err(ErroLeitura::CampoNaoEncontrado);
                    }
                    assert(campos.deep_view()[2] == campos@[2].deep_view());
                    assert(campos.deep_view()[3] == campos@[3].deep_view());
                    assert(campos@[2].deep_view() =~= campos@[2]@);
                    assert(campos@[3].deep_view() =~= campos@[3]@);
                    let precipitacao = trocar_virgulas(&campos[2]);
                    let temperatura = trocar_virgulas(&campos[3]);
                    return Ok(
                        Some(
                            LeituraClima { precipitacao, temperatura, proximo_contador: contador + 1 },
                        ),
                    );
                }
            },
        }
        i += 1;
    }
    Ok(None)
}

/// Reads the weather file's contents and takes data row number `contador`.
pub fn ler_linha_clima(conteudo: &[u8], contador: i128) -> (r: Result<Option<LeituraClima>, ErroLeitura>)
    ensures
        vista_leitura(r) == leitura_esperada(registros_csv(conteudo@), contador as int),
        r matches Ok(Some(l)) ==> l.proximo_contador == contador + 1,
{
    let registros = ler_registros_csv(conteudo);
    selecionar_linha(&registros, contador)
}

} // verus!
