use vstd::prelude::*;

use crate::models::{
    lema_texto_aceito_eh_nome, nome_operacao, operacao_de_texto, visao_resultado, PecaJson,
    ProximaOperacao,
};
use crate::texto::{digitos_desde, eh_digito, eh_espaco, em_branco, so_digitos, so_espacos};
use vstd::string::StringSliceAdditionalSpecFns;
use vstd::utf8::{is_ascii_chars, is_ascii_chars_encode_utf8};

verus! {

/// A valid PI code: exactly eight characters, all of them digits.
pub open spec fn codigo_pi_valido(s: Seq<char>) -> bool {
    s.len() == 8 && so_digitos(s, 0, 8)
}

/// A valid batch: `H` and ten digits, as in `H0501001001`.
pub open spec fn lote_valido(s: Seq<char>) -> bool {
    s.len() == 11 && s[0] == 'H' && so_digitos(s, 1, 11)
}

pub open spec fn erro_codigo_pi() -> Seq<char> {
    "Código PI inválido — deve ter exatamente 8 dígitos numéricos."@
}

pub open spec fn erro_lote() -> Seq<char> {
    "Lote inválido — fora do padrão H + 10 dígitos."@
}

pub open spec fn erro_obrigatorios() -> Seq<char> {
    "Nome e data de entrada são obrigatórios."@
}

/// What the check of a submitted part answers. The rules are tried in order and
/// the first one broken gives the message: the PI code, then the batch, then
/// that neither the name nor the entry date is blank; a part that passes them
/// all gets the step its text names, or the message that refuses that text.
pub open spec fn validacao(j: PecaJson) -> Result<ProximaOperacao, Seq<char>> {
    if !codigo_pi_valido(j.codigo_pi@) {
        Err(erro_codigo_pi())
    } else if !lote_valido(j.lote@) {
        Err(erro_lote())
    } else if em_branco(j.nome@) || em_branco(j.data_entrada@) {
        Err(erro_obrigatorios())
    } else {
        operacao_de_texto(j.proxima_operacao@)
    }
}

/// The PI code rule, read with the length in bytes: eight bytes, every
/// character a digit. Digits take one byte each, so it is the same rule as
/// eight characters that are all digits.
pub proof fn lema_codigo_pi_em_bytes(s: &str)
    ensures
        codigo_pi_valido(s@) <==> (s.spec_bytes().len() == 8 && so_digitos(s@, 0, s@.len() as int)),
{
    if so_digitos(s@, 0, s@.len() as int) {
        assert(is_ascii_chars(s@)) by {
            assert forall|i: int| 0 <= i < s@.len() implies '\0' <= #[trigger] s@[i] <= '\u{7f}' by {
                assert(eh_digito(s@[i]));
            }
        }
        is_ascii_chars_encode_utf8(s@);
    }
}

/// The batch rule, read with the length in bytes: it starts with `H`, it is
/// eleven bytes long, and every character after the `H` is a digit. It is the
/// same rule as `H` and ten digits.
pub proof fn lema_lote_em_bytes(s: &str)
    ensures
        lote_valido(s@) <==> (s@.len() > 0 && s@[0] == 'H' && s.spec_bytes().len() == 11
            && so_digitos(s@, 1, s@.len() as int)),
{
    if s@.len() > 0 && s@[0] == 'H' && so_digitos(s@, 1, s@.len() as int) {
        assert(is_ascii_chars(s@)) by {
            assert forall|i: int| 0 <= i < s@.len() implies '\0' <= #[trigger] s@[i] <= '\u{7f}' by {
                if i > 0 {
                    assert(eh_digito(s@[i]));
                }
            }
        }
        is_ascii_chars_encode_utf8(s@);
    }
}

/// The check of a submitted part, stated on the characters themselves. The PI
/// code must be eight characters, each of them (the first included) an ASCII
/// digit; the batch must be eleven characters, an `H` and then ten ASCII digits;
/// the name and the entry date must each hold some character that is not white
/// space; the step must be named exactly. The first rule broken, in that order,
/// decides the message; a part that breaks none gets the step it names.
pub proof fn lema_regras_da_validacao(j: PecaJson)
    ensures
        validacao(j) == (if !(j.codigo_pi@.len() == 8 && forall|i: int|
            0 <= i < 8 ==> '0' <= #[trigger] j.codigo_pi@[i] <= '9') {
            Err::<ProximaOperacao, Seq<char>>(
                "Código PI inválido — deve ter exatamente 8 dígitos numéricos."@,
            )
        } else if !(j.lote@.len() == 11 && j.lote@[0] == 'H' && forall|i: int|
            1 <= i < 11 ==> '0' <= #[trigger] j.lote@[i] <= '9') {
            Err::<ProximaOperacao, Seq<char>>("Lote inválido — fora do padrão H + 10 dígitos."@)
        } else if (forall|i: int| 0 <= i < j.nome@.len() ==> #[trigger] eh_espaco(j.nome@[i]))
            || (forall|i: int|
            0 <= i < j.data_entrada@.len() ==> #[trigger] eh_espaco(j.data_entrada@[i])) {
            Err::<ProximaOperacao, Seq<char>>("Nome e data de entrada são obrigatórios."@)
        } else {
            operacao_de_texto(j.proxima_operacao@)
        }),
        validacao(j) is Ok ==> codigo_pi_valido(j.codigo_pi@) && lote_valido(j.lote@),
        validacao(j) matches Ok(op) ==> j.proxima_operacao@ == nome_operacao(op),
{
    let c = j.codigo_pi@;
    let l = j.lote@;
    assert(codigo_pi_valido(c) <==> (c.len() == 8 && forall|i: int|
        0 <= i < 8 ==> '0' <= #[trigger] c[i] <= '9')) by {
        if c.len() == 8 && forall|i: int| 0 <= i < 8 ==> '0' <= #[trigger] c[i] <= '9' {
            assert forall|i: int| 0 <= i < 8 implies #[trigger] eh_digito(c[i]) by {
                assert('0' <= c[i] <= '9');
            }
        }
        if codigo_pi_valido(c) {
            assert forall|i: int| 0 <= i < 8 implies '0' <= #[trigger] c[i] <= '9' by {
                assert(eh_digito(c[i]));
            }
        }
    }
    assert(lote_valido(l) <==> (l.len() == 11 && l[0] == 'H' && forall|i: int|
        1 <= i < 11 ==> '0' <= #[trigger] l[i] <= '9')) by {
        if l.len() == 11 && l[0] == 'H' && forall|i: int| 1 <= i < 11 ==> '0' <= #[trigger] l[i] <= '9' {
            assert forall|i: int| 1 <= i < 11 implies #[trigger] eh_digito(l[i]) by {
                assert('0' <= l[i] <= '9');
            }
        }
        if lote_valido(l) {
            assert forall|i: int| 1 <= i < 11 implies '0' <= #[trigger] l[i] <= '9' by {
                assert(eh_digito(l[i]));
            }
        }
    }
    if let Ok(op) = validacao(j) {
        lema_texto_aceito_eh_nome(j.proxima_operacao@, op);
    }
}

/// Checks a part sent by the form before it is stored or updated, and reads its
/// step.
pub fn validar_peca(body: &PecaJson) -> (r: Result<ProximaOperacao, String>)
    ensures
        visao_resultado(r) == validacao(*body),
        r is Ok ==> body.codigo_pi@.len() == 8 && forall|i: int|
            0 <= i < 8 ==> '0' <= #[trigger] body.codigo_pi@[i] <= '9',
        r is Ok ==> body.lote@.len() == 11 && body.lote@[0] == 'H' && forall|i: int|
            1 <= i < 11 ==> '0' <= #[trigger] body.lote@[i] <= '9',
        r is Ok ==> exists|i: int|
            0 <= i < body.nome@.len() && !eh_espaco(#[trigger] body.nome@[i]),
        r is Ok ==> exists|i: int|
            0 <= i < body.data_entrada@.len() && !eh_espaco(#[trigger] body.data_entrada@[i]),
        r matches Ok(op) ==> body.proxima_operacao@ == nome_operacao(op),
        !(body.codigo_pi@.len() == 8 && forall|i: int|
            0 <= i < 8 ==> '0' <= #[trigger] body.codigo_pi@[i] <= '9') ==> (r matches Err(e)
            && e@ == "Código PI inválido — deve ter exatamente 8 dígitos numéricos."@),
{
    proof {
        lema_regras_da_validacao(*body);
    }
    let codigo = body.codigo_pi.as_str();
    if codigo.unicode_len() != 8 || !digitos_desde(codigo, 0) {
        return Err(String::from_str("Código PI inválido — deve ter exatamente 8 dígitos numéricos."));
    }
    let lote = body.lote.as_str();
    let lote_ok = lote.unicode_len() == 11 && lote.get_char(0) == 'H' && digitos_desde(lote, 1);
    if !lote_ok {
        return Err(String::from_str("Lote inválido — fora do padrão H + 10 dígitos."));
    }
    if so_espacos(body.nome.as_str()) || so_espacos(body.data_entrada.as_str()) {
        return Err(String::from_str("Nome e data de entrada são obrigatórios."));
    }
    ProximaOperacao::de_texto(body.proxima_operacao.as_str())
}

} // verus!
