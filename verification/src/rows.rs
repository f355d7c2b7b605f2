//! Interpretation of the rows the storage engine hands back. The statements in
//! `query` return either zero rows (the conditional update applied to nothing)
//! or rows carrying `(limite_atual, saldo_atual)`; these functions turn such
//! plain row values into the service's responses.

use vstd::prelude::*;
use crate::types::ExtratoResponse;
use crate::types::LedgerError;
use crate::types::SaldoExtratoResponse;
use crate::types::Transacao;
use crate::types::TransacaoExtratoResponse;
use crate::types::TransacaoResponse;

verus! {

/// How many transactions the extract shows.
pub const EXTRATO_DISPLAY: usize = 10;

/// Read the result of the atomic balance update. The statement returns one
/// `(limite_atual, saldo_atual)` row when the update applied; zero rows mean
/// the conditional write matched nothing, which rejects the operation with no
/// side effects.
pub fn interpret_update_rows(rows: &Vec<(i32, i32)>) -> (r: Result<TransacaoResponse, LedgerError>)
    ensures
        match r {
            Ok(resp) => {
                &&& rows@.len() > 0
                &&& resp.limite == rows@[0].0
                &&& resp.saldo == rows@[0].1
            },
            Err(e) => rows@.len() == 0 && e == LedgerError::Rejected,
        },
{
    if rows.len() == 0 {
        Err(LedgerError::Rejected)
    } else {
        let (limite, saldo): (i32, i32) = rows[0];
        Ok(TransacaoResponse { saldo, limite })
    }
}

/// One extract line shows exactly the stored record's fields.
pub open spec fn linha_do_registro(linha: TransacaoExtratoResponse, t: Transacao) -> bool {
    &&& linha.valor == t.valor
    &&& linha.tipo == t.tipo
    &&& linha.descricao == t.descricao
    &&& linha.realizada_em == t.realizada_em
}

/// Build the extract from the fetched records, given newest first. Zero rows
/// report an empty history; otherwise the snapshot is taken from the newest
/// record's denormalized fields — never from a separate account read, so the
/// extract stays consistent with its own list under concurrent writes — and at
/// most `EXTRATO_DISPLAY` records are shown; a fetched row beyond that count is
/// discarded.
pub fn build_extrato(rows: Vec<Transacao>, data_extrato: String) -> (r: Result<
    ExtratoResponse,
    LedgerError,
>)
    ensures
        match r {
            Ok(resp) => {
                &&& rows@.len() > 0
                &&& resp.saldo.total == rows@[0].saldo_atual
                &&& resp.saldo.limite == rows@[0].limite_atual
                &&& resp.saldo.data_extrato == data_extrato
                &&& resp.ultimas_transacoes@.len() == vstd::math::min(
                    rows@.len() as int,
                    EXTRATO_DISPLAY as int,
                )
                &&& forall|j: int|
                    0 <= j < resp.ultimas_transacoes@.len() ==> linha_do_registro(
                        #[trigger] resp.ultimas_transacoes@[j],
                        rows@[j],
                    )
            },
            Err(e) => rows@.len() == 0 && e == LedgerError::NoHistory,
        },
{
    if rows.len() == 0 {
        return Err(LedgerError::NoHistory);
    }
    let mostradas: usize = if rows.len() < EXTRATO_DISPLAY {
        rows.len()
    } else {
        EXTRATO_DISPLAY
    };
    let mut ultimas: Vec<TransacaoExtratoResponse> = Vec::new();
    let mut j: usize = 0;
    while j < mostradas
        invariant
            j <= mostradas,
            mostradas <= rows@.len(),
            ultimas@.len() == j,
            forall|k: int|
                0 <= k < j ==> linha_do_registro(#[trigger] ultimas@[k], rows@[k]),
        decreases mostradas - j,
    {
        let t = &rows[j];
        ultimas.push(
            TransacaoExtratoResponse {
                valor: t.valor,
                tipo: t.tipo.clone(),
                descricao: t.descricao.clone(),
                realizada_em: t.realizada_em.clone(),
            },
        );
        j += 1;
    }
    let saldo = SaldoExtratoResponse {
        total: rows[0].saldo_atual,
        limite: rows[0].limite_atual,
        data_extrato,
    };
    Ok(ExtratoResponse { saldo, ultimas_transacoes: ultimas })
}

} // verus!
