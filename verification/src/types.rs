//! Domain types: accounts, transaction records, request validation.

use vstd::prelude::*;
use vstd::string::StrSliceExecFns;

verus! {

/// One immutable transaction record, as the audit trail stores it.
/// `limite_atual` and `saldo_atual` are the account's limit and balance as of
/// immediately after this transaction (denormalized snapshot).
pub struct Transacao {
    pub cliente_id: i32,
    pub valor: i32,
    pub tipo: String,
    pub descricao: String,
    pub realizada_em: String,
    pub limite_atual: i32,
    pub saldo_atual: i32,
}

/// One account: display name, overdraft limit (non-negative, immutable) and
/// current balance (may go negative down to `-limite`).
pub struct Cliente {
    pub nome: String,
    pub limite: i32,
    pub saldo: i32,
}

/// Transaction kind: a credit raises the balance, a debit lowers it.
#[derive(Clone, Copy, PartialEq, Eq, Structural, Debug)]
pub enum Tipo {
    Credito,
    Debito,
}

/// Every way an operation can be refused. Each refusal leaves the ledger
/// untouched.
#[derive(Clone, Copy, PartialEq, Eq, Structural, Debug)]
pub enum LedgerError {
    /// The account id is outside the configured set.
    NotFound,
    /// The request itself is malformed (amount, kind or description).
    Invalid,
    /// The debit would push the balance below `-limite`.
    Rejected,
    /// The account exists but has no transaction yet.
    NoHistory,
}

/// Snapshot returned by a successful balance update.
pub struct TransacaoResponse {
    pub saldo: i32,
    pub limite: i32,
}

/// One line of the extract, shown to the caller.
pub struct TransacaoExtratoResponse {
    pub valor: i32,
    pub tipo: String,
    pub descricao: String,
    pub realizada_em: String,
}

/// Balance snapshot of the extract, stamped with the query instant.
pub struct SaldoExtratoResponse {
    pub total: i32,
    pub limite: i32,
    pub data_extrato: String,
}

/// The extract: current snapshot plus the most recent transactions,
/// newest first, at most ten of them.
pub struct ExtratoResponse {
    pub saldo: SaldoExtratoResponse,
    pub ultimas_transacoes: Vec<TransacaoExtratoResponse>,
}

/// The wire spelling of a transaction kind.
pub open spec fn tipo_marca(t: Tipo) -> Seq<char> {
    match t {
        Tipo::Credito => "c"@,
        Tipo::Debito => "d"@,
    }
}

/// How the service reads a kind off the wire: exactly "c" or "d", anything
/// else is unrecognized.
pub open spec fn parse_tipo_spec(s: Seq<char>) -> Option<Tipo> {
    if s == "c"@ {
        Some(Tipo::Credito)
    } else if s == "d"@ {
        Some(Tipo::Debito)
    } else {
        None
    }
}

/// Recognize a transaction kind.
pub fn parse_tipo(tipo: &String) -> (r: Option<Tipo>)
    ensures
        r == parse_tipo_spec(tipo@),
{
    let credito: String = "c".to_owned();
    let debito: String = "d".to_owned();
    if *tipo == credito {
        Some(Tipo::Credito)
    } else if *tipo == debito {
        Some(Tipo::Debito)
    } else {
        None
    }
}

/// Spell a kind back out, the inverse of `parse_tipo` on recognized input.
pub fn tipo_to_string(t: Tipo) -> (r: String)
    ensures
        r@ == tipo_marca(t),
{
    match t {
        Tipo::Credito => "c".to_owned(),
        Tipo::Debito => "d".to_owned(),
    }
}

/// A description must be 1 to 10 characters long.
pub open spec fn descricao_valida(s: Seq<char>) -> bool {
    1 <= s.len() && s.len() <= 10
}

/// Check a description's length, counted in characters.
pub fn check_descricao(descricao: &String) -> (r: bool)
    ensures
        r == descricao_valida(descricao@),
{
    let l: usize = descricao.as_str().unicode_len();
    1 <= l && l <= 10
}

/// An amount must be a positive integer.
pub open spec fn valor_valido(valor: i32) -> bool {
    valor > 0
}

/// The largest account id the deployment serves; the served range is the
/// closed interval from 1 to this bound.
pub const CLIENTE_ID_MAX: i32 = 5;

/// The account ids the deployment serves.
pub open spec fn cliente_id_valido(cliente_id: i32) -> bool {
    0 < cliente_id && cliente_id <= CLIENTE_ID_MAX
}

/// Check an account id against the deployed range.
pub fn is_valid_cliente_id(cliente_id: i32) -> (r: bool)
    ensures
        r == cliente_id_valido(cliente_id),
{
    cliente_id > 0 && cliente_id <= CLIENTE_ID_MAX
}

/// A request is well formed when amount, kind and description all pass.
pub open spec fn entrada_valida(valor: i32, tipo: Seq<char>, descricao: Seq<char>) -> bool {
    &&& valor_valido(valor)
    &&& parse_tipo_spec(tipo) is Some
    &&& descricao_valida(descricao)
}

} // verus!
