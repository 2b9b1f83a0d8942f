use vstd::prelude::*;

use crate::texto::textos_iguais;

verus! {

/// The fixed steps of the production process; each part waits for one of them.
#[derive(Debug, Clone, Copy, PartialEq, Eq, Structural)]
pub enum ProximaOperacao {
    FormarPonta,
    Trefilar,
    Endireitar,
    Cortar,
    LimparBlank,
    FormarEndForming,
    Curvar,
    Recalcar,
    Rebarbar,
    Zincar,
    Calibrar,
}

/// A part as it is kept in the database.
#[derive(Debug, Clone, PartialEq, Eq)]
pub struct Peca {
    /// Given by the database when the part is stored.
    pub id: i32,
    /// Eight digits: the part's internal code.
    pub codigo_pi: String,
    /// The part's descriptive name.
    pub nome: String,
    /// The step the part waits for.
    pub proxima_operacao: ProximaOperacao,
    /// The day the part came in, as an ISO date (`AAAA-MM-DD`).
    pub data_entrada: String,
    /// The batch the part came from: `H` and ten digits.
    pub lote: String,
    /// The day the part left; `None` while it is still in stock.
    pub data_saida: Option<String>,
}

/// A part as the form sends it: no id, and the step still a text.
#[derive(Debug, Clone, PartialEq, Eq)]
pub struct PecaJson {
    pub codigo_pi: String,
    pub nome: String,
    pub proxima_operacao: String,
    pub lote: String,
    pub data_entrada: String,
    pub data_saida: Option<String>,
}

/// The filters of a listing; each one that is given keeps only the parts whose
/// column contains it.
#[derive(Debug, Clone, PartialEq, Eq)]
pub struct FiltrosPeca {
    pub codigo_pi: Option<String>,
    pub nome: Option<String>,
    pub lote: Option<String>,
    pub proxima_operacao: Option<String>,
    pub data_entrada: Option<String>,
    pub data_saida: Option<String>,
}

/// The name under which a step is stored and sent: the name of its variant.
pub open spec fn nome_operacao(op: ProximaOperacao) -> Seq<char> {
    match op {
        ProximaOperacao::FormarPonta => "FormarPonta"@,
        ProximaOperacao::Trefilar => "Trefilar"@,
        ProximaOperacao::Endireitar => "Endireitar"@,
        ProximaOperacao::Cortar => "Cortar"@,
        ProximaOperacao::LimparBlank => "LimparBlank"@,
        ProximaOperacao::FormarEndForming => "FormarEndForming"@,
        ProximaOperacao::Curvar => "Curvar"@,
        ProximaOperacao::Recalcar => "Recalcar"@,
        ProximaOperacao::Rebarbar => "Rebarbar"@,
        ProximaOperacao::Zincar => "Zincar"@,
        ProximaOperacao::Calibrar => "Calibrar"@,
    }
}

/// The message that rejects a text that names no step.
pub open spec fn erro_operacao(s: Seq<char>) -> Seq<char> {
    "Operação desconhecida: "@ + s
}

/// The step that the text `s` names, matched exactly (case and all), or the
/// message that rejects it.
pub open spec fn operacao_de_texto(s: Seq<char>) -> Result<ProximaOperacao, Seq<char>> {
    if s == nome_operacao(ProximaOperacao::FormarPonta) {
        Ok(ProximaOperacao::FormarPonta)
    } else if s == nome_operacao(ProximaOperacao::Trefilar) {
        Ok(ProximaOperacao::Trefilar)
    } else if s == nome_operacao(ProximaOperacao::Endireitar) {
        Ok(ProximaOperacao::Endireitar)
    } else if s == nome_operacao(ProximaOperacao::Cortar) {
        Ok(ProximaOperacao::Cortar)
    } else if s == nome_operacao(ProximaOperacao::LimparBlank) {
        Ok(ProximaOperacao::LimparBlank)
    } else if s == nome_operacao(ProximaOperacao::FormarEndForming) {
        Ok(ProximaOperacao::FormarEndForming)
    } else if s == nome_operacao(ProximaOperacao::Curvar) {
        Ok(ProximaOperacao::Curvar)
    } else if s == nome_operacao(ProximaOperacao::Recalcar) {
        Ok(ProximaOperacao::Recalcar)
    } else if s == nome_operacao(ProximaOperacao::Rebarbar) {
        Ok(ProximaOperacao::Rebarbar)
    } else if s == nome_operacao(ProximaOperacao::Zincar) {
        Ok(ProximaOperacao::Zincar)
    } else if s == nome_operacao(ProximaOperacao::Calibrar) {
        Ok(ProximaOperacao::Calibrar)
    } else {
        Err(erro_operacao(s))
    }
}

/// A result whose error text is taken by its characters.
pub open spec fn visao_resultado<T>(r: Result<T, String>) -> Result<T, Seq<char>> {
    match r {
        Ok(v) => Ok(v),
        Err(e) => Err(e@),
    }
}

impl ProximaOperacao {
    /// The step's name, as it is stored in the database.
    pub fn as_str(&self) -> (r: &'static str)
        ensures
            r@ == nome_operacao(*self),
    {
        match self {
            ProximaOperacao::FormarPonta => "FormarPonta",
            ProximaOperacao::Trefilar => "Trefilar",
            ProximaOperacao::Endireitar => "Endireitar",
            ProximaOperacao::Cortar => "Cortar",
            ProximaOperacao::LimparBlank => "LimparBlank",
            ProximaOperacao::FormarEndForming => "FormarEndForming",
            ProximaOperacao::Curvar => "Curvar",
            ProximaOperacao::Recalcar => "Recalcar",
            ProximaOperacao::Rebarbar => "Rebarbar",
            ProximaOperacao::Zincar => "Zincar",
            ProximaOperacao::Calibrar => "Calibrar",
        }
    }

    /// The step that `s` names, from the form or from the database; any other
    /// text is refused with a message that quotes it.
    pub fn de_texto(s: &str) -> (r: Result<ProximaOperacao, String>)
        ensures
            visao_resultado(r) == operacao_de_texto(s@),
    {
        if textos_iguais(s, "FormarPonta") {
            Ok(ProximaOperacao::FormarPonta)
        } else if textos_iguais(s, "Trefilar") {
            Ok(ProximaOperacao::Trefilar)
        } else if textos_iguais(s, "Endireitar") {
            Ok(ProximaOperacao::Endireitar)
        } else if textos_iguais(s, "Cortar") {
            Ok(ProximaOperacao::Cortar)
        } else if textos_iguais(s, "LimparBlank") {
            Ok(ProximaOperacao::LimparBlank)
        } else if textos_iguais(s, "FormarEndForming") {
            Ok(ProximaOperacao::FormarEndForming)
        } else if textos_iguais(s, "Curvar") {
            Ok(ProximaOperacao::Curvar)
        } else if textos_iguais(s, "Recalcar") {
            Ok(ProximaOperacao::Recalcar)
        } else if textos_iguais(s, "Rebarbar") {
            Ok(ProximaOperacao::Rebarbar)
        } else if textos_iguais(s, "Zincar") {
            Ok(ProximaOperacao::Zincar)
        } else if textos_iguais(s, "Calibrar") {
            Ok(ProximaOperacao::Calibrar)
        } else {
            let mut msg = String::from_str("Operação desconhecida: ");
            msg.append(s);
            Err(msg)
        }
    }
}

impl std::str::FromStr for ProximaOperacao {
    type Err = String;

    fn from_str(s: &str) -> (r: Result<ProximaOperacao, String>)
        ensures
            visao_resultado(r) == operacao_de_texto(s@),
    {
        ProximaOperacao::de_texto(s)
    }
}

/// Reading back the name of a step gives the same step: what `as_str` stores,
/// `from_str` turns into the step it came from.
pub proof fn lema_nome_volta_a_operacao(op: ProximaOperacao)
    ensures
        operacao_de_texto(nome_operacao(op)) == Ok::<ProximaOperacao, Seq<char>>(op),
{
    reveal_strlit("FormarPonta");
    reveal_strlit("Trefilar");
    reveal_strlit("Endireitar");
    reveal_strlit("Cortar");
    reveal_strlit("LimparBlank");
    reveal_strlit("FormarEndForming");
    reveal_strlit("Curvar");
    reveal_strlit("Recalcar");
    reveal_strlit("Rebarbar");
    reveal_strlit("Zincar");
    reveal_strlit("Calibrar");
    // Names of one length differ within their first three characters;
    // the longest name is told apart by its length alone.
    assert("FormarPonta"@[0] != "LimparBlank"@[0]);
    assert("Trefilar"@[0] != "Recalcar"@[0] && "Trefilar"@[0] != "Rebarbar"@[0]);
    assert("Trefilar"@[0] != "Calibrar"@[0] && "Recalcar"@[0] != "Calibrar"@[0]);
    assert("Rebarbar"@[0] != "Calibrar"@[0] && "Recalcar"@[2] != "Rebarbar"@[2]);
    assert("Cortar"@[0] != "Zincar"@[0] && "Curvar"@[0] != "Zincar"@[0]);
    assert("Cortar"@[1] != "Curvar"@[1]);
    assert("FormarEndForming"@.len() == 16);
}

/// Each step is stored and sent under the name of its variant, spelled exactly.
pub proof fn lema_nomes_das_operacoes()
    ensures
        nome_operacao(ProximaOperacao::FormarPonta) == "FormarPonta"@,
        nome_operacao(ProximaOperacao::Trefilar) == "Trefilar"@,
        nome_operacao(ProximaOperacao::Endireitar) == "Endireitar"@,
        nome_operacao(ProximaOperacao::Cortar) == "Cortar"@,
        nome_operacao(ProximaOperacao::LimparBlank) == "LimparBlank"@,
        nome_operacao(ProximaOperacao::FormarEndForming) == "FormarEndForming"@,
        nome_operacao(ProximaOperacao::Curvar) == "Curvar"@,
        nome_operacao(ProximaOperacao::Recalcar) == "Recalcar"@,
        nome_operacao(ProximaOperacao::Rebarbar) == "Rebarbar"@,
        nome_operacao(ProximaOperacao::Zincar) == "Zincar"@,
        nome_operacao(ProximaOperacao::Calibrar) == "Calibrar"@,
{
}

/// A text is read as a step exactly when it is some step's name; any other text
/// is refused with "Operação desconhecida: " followed by the text itself.
pub proof fn lema_texto_de_operacao(s: Seq<char>)
    ensures
        operacao_de_texto(s) is Ok <==> exists|op: ProximaOperacao| s == #[trigger] nome_operacao(op),
        operacao_de_texto(s) matches Err(e) ==> e == "Operação desconhecida: "@ + s,
{
    if let Ok(op) = operacao_de_texto(s) {
        assert(s == nome_operacao(op));
    }
    if exists|op: ProximaOperacao| s == #[trigger] nome_operacao(op) {
        let op = choose|op: ProximaOperacao| s == #[trigger] nome_operacao(op);
        lema_nome_volta_a_operacao(op);
    }
}

/// A text that is read as a step is exactly that step's name: no other
/// spelling is accepted.
pub proof fn lema_texto_aceito_eh_nome(s: Seq<char>, op: ProximaOperacao)
    requires
        operacao_de_texto(s) == Ok::<ProximaOperacao, Seq<char>>(op),
    ensures
        s == nome_operacao(op),
{
}

} // verus!
