//! The SQL statements the service sends. The balance update is a single
//! conditional statement: the limit check, the balance mutation and the
//! insertion of the transaction record travel as one atomic round trip, so the
//! storage engine serializes concurrent updates on the same account row.

use vstd::prelude::*;

verus! {

/// The atomic credit statement: unconditionally raise the balance, then
/// insert one transaction record carrying the updated snapshot.
pub open spec fn query_transacao_credito() -> Seq<char> {
    "WITH cliente_atualizado AS (UPDATE cliente SET saldo = saldo + $1 WHERE id = $2 RETURNING saldo, limite) INSERT INTO transacao (cliente_id, valor, tipo, descricao, limite_atual, saldo_atual) SELECT $3, $4, $5, $6, cliente_atualizado.limite, cliente_atualizado.saldo  FROM cliente_atualizado RETURNING limite_atual, saldo_atual"@
}

/// The atomic debit statement: lower the balance only where
/// `saldo - valor >= -limite` still holds, then insert one transaction record
/// carrying the updated snapshot. A violated limit updates zero rows and
/// inserts nothing.
pub open spec fn query_transacao_debito() -> Seq<char> {
    "WITH cliente_atualizado AS (UPDATE cliente SET saldo = saldo - $1 WHERE id = $2 AND saldo - $3 >= -ABS(limite) RETURNING saldo, limite) INSERT INTO transacao (cliente_id, valor, tipo, descricao, limite_atual, saldo_atual) SELECT $4, $5, $6, $7, cliente_atualizado.limite, cliente_atualizado.saldo  FROM cliente_atualizado RETURNING limite_atual, saldo_atual"@
}

/// The extract query: the most recent transactions of one account, newest
/// first by insertion sequence, one row beyond the display count so that an
/// empty history can be told apart after the fact.
pub open spec fn query_extrato() -> Seq<char> {
    "SELECT valor, tipo, descricao, realizada_em, limite_atual, saldo_atual FROM transacao WHERE cliente_id = $1 ORDER BY id DESC LIMIT 11 "@
}

/// Build the balance-update statement for a kind given in its wire spelling:
/// the credit statement for "c", the debit statement for anything else.
pub fn get_query_transacao(tipo: String) -> (r: String)
    ensures
        tipo@ == "c"@ ==> r@ == query_transacao_credito(),
        tipo@ != "c"@ ==> r@ == query_transacao_debito(),
{
    let credito: String = "c".to_owned();
    if tipo == credito {
        "WITH cliente_atualizado AS (UPDATE cliente SET saldo = saldo + $1 WHERE id = $2 RETURNING saldo, limite) INSERT INTO transacao (cliente_id, valor, tipo, descricao, limite_atual, saldo_atual) SELECT $3, $4, $5, $6, cliente_atualizado.limite, cliente_atualizado.saldo  FROM cliente_atualizado RETURNING limite_atual, saldo_atual".to_owned()
    } else {
        "WITH cliente_atualizado AS (UPDATE cliente SET saldo = saldo - $1 WHERE id = $2 AND saldo - $3 >= -ABS(limite) RETURNING saldo, limite) INSERT INTO transacao (cliente_id, valor, tipo, descricao, limite_atual, saldo_atual) SELECT $4, $5, $6, $7, cliente_atualizado.limite, cliente_atualizado.saldo  FROM cliente_atualizado RETURNING limite_atual, saldo_atual".to_owned()
    }
}

/// Build the extract query.
pub fn get_query_extrato() -> (r: String)
    ensures
        r@ == query_extrato(),
{
    "SELECT valor, tipo, descricao, realizada_em, limite_atual, saldo_atual FROM transacao WHERE cliente_id = $1 ORDER BY id DESC LIMIT 11 ".to_owned()
}

} // verus!
