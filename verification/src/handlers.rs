use vstd::prelude::*;

use crate::models::{nome_operacao, Peca, PecaJson, ProximaOperacao};
use crate::validation::{lema_regras_da_validacao, validacao, validar_peca};

verus! {

/// The HTTP statuses that the routes answer with: `200 OK` and `400 Bad Request`.
#[derive(Debug, Clone, Copy, PartialEq, Eq, Structural)]
pub enum StatusHttp {
    Sucesso,
    RequisicaoInvalida,
}

/// An answer: its status and its text body.
#[derive(Debug, Clone, PartialEq, Eq)]
pub struct Resposta {
    pub status: StatusHttp,
    pub corpo: String,
}

/// A change to the stored parts.
#[derive(Debug, Clone, PartialEq, Eq)]
pub enum Acao {
    /// Store a new part; the database gives it its id.
    Inserir(Peca),
    /// Rewrite every column of the part with this part's id.
    Atualizar(Peca),
    /// Remove the part with this id.
    Deletar(i32),
}

/// What a route does with a request: the change to make, if any, and then the
/// answer to send.
#[derive(Debug, Clone, PartialEq, Eq)]
pub struct Plano {
    pub acao: Option<Acao>,
    pub resposta: Resposta,
}

/// The part that the form describes, under the given id and with the step
/// already read.
pub open spec fn peca_do_formulario(id: i32, j: PecaJson, op: ProximaOperacao) -> Peca {
    Peca {
        id,
        codigo_pi: j.codigo_pi,
        nome: j.nome,
        proxima_operacao: op,
        data_entrada: j.data_entrada,
        lote: j.lote,
        data_saida: j.data_saida,
    }
}

/// The part built from the form carries every field of the form unchanged,
/// under the id given and with the step read from the form.
pub proof fn lema_peca_do_formulario(id: i32, j: PecaJson, op: ProximaOperacao)
    ensures
        peca_do_formulario(id, j, op).id == id,
        peca_do_formulario(id, j, op).codigo_pi == j.codigo_pi,
        peca_do_formulario(id, j, op).nome == j.nome,
        peca_do_formulario(id, j, op).proxima_operacao == op,
        peca_do_formulario(id, j, op).data_entrada == j.data_entrada,
        peca_do_formulario(id, j, op).lote == j.lote,
        peca_do_formulario(id, j, op).data_saida == j.data_saida,
{
}

fn peca_de_formulario(id: i32, body: &PecaJson, op: ProximaOperacao) -> (r: Peca)
    ensures
        r == peca_do_formulario(id, *body, op),
{
    Peca {
        id,
        codigo_pi: body.codigo_pi.clone(),
        nome: body.nome.clone(),
        proxima_operacao: op,
        data_entrada: body.data_entrada.clone(),
        lote: body.lote.clone(),
        data_saida: body.data_saida.clone(),
    }
}

/// A part that the form sends with a broken rule is answered `400 Bad Request`
/// with the rule's message, and nothing is written.
pub open spec fn recusado(r: Plano, m: Seq<char>) -> bool {
    &&& r.acao is None
    &&& r.resposta.status == StatusHttp::RequisicaoInvalida
    &&& r.resposta.corpo@ == m
}

/// `GET /health`: the server is up.
pub fn resposta_health_check() -> (r: Resposta)
    ensures
        r.status == StatusHttp::Sucesso,
        r.corpo@ == "Servidor rodando!"@,
{
    Resposta { status: StatusHttp::Sucesso, corpo: String::from_str("Servidor rodando!") }
}

/// `POST /pecas`: a valid part is stored (the database gives it its id) and the
/// answer confirms it; an invalid one is refused.
pub fn plano_post_peca(body: &PecaJson) -> (r: Plano)
    ensures
        match validacao(*body) {
            Err(m) => recusado(r, m),
            Ok(op) => {
                &&& r.acao == Some(Acao::Inserir(peca_do_formulario(0, *body, op)))
                &&& r.resposta.status == StatusHttp::Sucesso
                &&& r.resposta.corpo@ == "Peça cadastrada com sucesso!"@
            },
        },
        r.acao matches Some(a) ==> (a matches Acao::Inserir(q) && q.id == 0 && q.codigo_pi
            == body.codigo_pi && q.nome == body.nome && q.lote == body.lote && q.data_entrada
            == body.data_entrada && q.data_saida == body.data_saida && nome_operacao(
            q.proxima_operacao,
        ) == body.proxima_operacao@),
        r.acao is Some <==> validacao(*body) is Ok,
        r.acao is Some ==> r.resposta.status == StatusHttp::Sucesso,
        r.acao is None ==> r.resposta.status == StatusHttp::RequisicaoInvalida,
{
    match validar_peca(body) {
        Err(msg) => Plano {
            acao: None,
            resposta: Resposta { status: StatusHttp::RequisicaoInvalida, corpo: msg },
        },
        Ok(op) => {
            let peca = peca_de_formulario(0, body, op);
            proof {
                lema_peca_do_formulario(0, *body, op);
                lema_regras_da_validacao(*body);
            }
            Plano {
                acao: Some(Acao::Inserir(peca)),
                resposta: Resposta {
                    status: StatusHttp::Sucesso,
                    corpo: String::from_str("Peça cadastrada com sucesso!"),
                },
            }
        },
    }
}

/// `PUT /pecas/{id}`: a valid part replaces every column of the part with the
/// id of the path; an invalid one is refused.
pub fn plano_put_peca(id: i32, body: &PecaJson) -> (r: Plano)
    ensures
        match validacao(*body) {
            Err(m) => recusado(r, m),
            Ok(op) => {
                &&& r.acao == Some(Acao::Atualizar(peca_do_formulario(id, *body, op)))
                &&& r.resposta.status == StatusHttp::Sucesso
                &&& r.resposta.corpo@ == "Peça atualizada."@
            },
        },
        r.acao matches Some(a) ==> (a matches Acao::Atualizar(q) && q.id == id && q.codigo_pi
            == body.codigo_pi && q.nome == body.nome && q.lote == body.lote && q.data_entrada
            == body.data_entrada && q.data_saida == body.data_saida && nome_operacao(
            q.proxima_operacao,
        ) == body.proxima_operacao@),
        r.acao is Some <==> validacao(*body) is Ok,
        r.acao is Some ==> r.resposta.status == StatusHttp::Sucesso,
        r.acao is None ==> r.resposta.status == StatusHttp::RequisicaoInvalida,
{
    match validar_peca(body) {
        Err(msg) => Plano {
            acao: None,
            resposta: Resposta { status: StatusHttp::RequisicaoInvalida, corpo: msg },
        },
        Ok(op) => {
            let peca = peca_de_formulario(id, body, op);
            proof {
                lema_peca_do_formulario(id, *body, op);
                lema_regras_da_validacao(*body);
            }
            Plano {
                acao: Some(Acao::Atualizar(peca)),
                resposta: Resposta {
                    status: StatusHttp::Sucesso,
                    corpo: String::from_str("Peça atualizada."),
                },
            }
        },
    }
}

/// `DELETE /pecas/{id}`: the part with the id of the path is removed.
pub fn plano_delete_peca(id: i32) -> (r: Plano)
    ensures
        r.acao == Some(Acao::Deletar(id)),
        r.resposta.status == StatusHttp::Sucesso,
        r.resposta.corpo@ == "Peça deletada."@,
{
    Plano {
        acao: Some(Acao::Deletar(id)),
        resposta: Resposta { status: StatusHttp::Sucesso, corpo: String::from_str("Peça deletada.") },
    }
}

} // verus!
