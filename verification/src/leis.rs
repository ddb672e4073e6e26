use vstd::prelude::*;

use crate::clima::{leitura_esperada, troca_virgulas, ErroLeitura};
use crate::dispositivos::{aplicar, nome, ordem, AutomacaoResidencial, Dispositivo, UpdateData};
use crate::estado::{CondicaoClima, EstadoCasa};
use crate::relogio::{avancar_horas, proxima_hora, Clock};
use crate::travas::{LockDevice, UpdateLockData};

verus! {

// ---------------------------------------------------------------- clock

/// From a valid hour, `n` steps of the clock land on `(h + n) mod 24`.
pub proof fn lei_horas_modulares(h: int, n: nat)
    requires
        0 <= h < 24,
    ensures
        avancar_horas(h, n) == (h + n) % 24,
    decreases n,
{
    if n > 0 {
        lei_horas_modulares(h, (n - 1) as nat);
    }
}

/// A valid hour stays valid after any number of steps.
pub proof fn lei_hora_sempre_valida(h: int, n: nat)
    requires
        0 <= h < 24,
    ensures
        0 <= avancar_horas(h, n) < 24,
{
    lei_horas_modulares(h, n);
}

/// Twenty-four steps bring the clock back to the hour it showed.
pub proof fn lei_volta_completa(h: int)
    requires
        0 <= h < 24,
    ensures
        avancar_horas(h, 24) == h,
{
    lei_horas_modulares(h, 24);
}

// ---------------------------------------------------------------- devices

/// After an update, each device holds the value the update asked of it,
/// or its old value when the update asked nothing.
pub proof fn lei_atualizacao_por_dispositivo(a: AutomacaoResidencial, u: UpdateData, d: Dispositivo)
    ensures
        a.atualizado(u).estado(d) == aplicar(u.pedido(d), a.estado(d)),
{
}

/// An update that names no device changes nothing.
pub proof fn lei_atualizacao_vazia(a: AutomacaoResidencial, u: UpdateData)
    requires
        forall|d: Dispositivo| #[trigger] u.pedido(d) is None,
    ensures
        a.atualizado(u) == a,
{
    assert(u.pedido(Dispositivo::Luz) is None);
    assert(u.pedido(Dispositivo::Tranca) is None);
    assert(u.pedido(Dispositivo::Alarme) is None);
    assert(u.pedido(Dispositivo::Janelas) is None);
    assert(u.pedido(Dispositivo::Robo) is None);
    assert(u.pedido(Dispositivo::Cafeteira) is None);
    assert(u.pedido(Dispositivo::ArCondicionado) is None);
    assert(u.pedido(Dispositivo::Aquecedor) is None);
    assert(u.pedido(Dispositivo::CaixaDeSom) is None);
    assert(u.pedido(Dispositivo::Televisao) is None);
}

/// Applying the same update twice is the same as applying it once.
pub proof fn lei_atualizacao_idempotente(a: AutomacaoResidencial, u: UpdateData)
    ensures
        a.atualizado(u).atualizado(u) == a.atualizado(u),
{
}

/// The report lists every device once, in order, by its name and state.
pub proof fn lei_relatorio(a: AutomacaoResidencial)
    ensures
        a.relatorio() == ordem().map_values(|d: Dispositivo| (nome(d), a.estado(d))),
        forall|i: int, j: int|
            0 <= i < j < ordem().len() ==> nome(#[trigger] ordem()[i]) != nome(#[trigger] ordem()[j]),
{
    assert(a.relatorio() =~= ordem().map_values(|d: Dispositivo| (nome(d), a.estado(d))));
    lei_nomes_distintos();
}

/// No two devices share a name.
pub proof fn lei_nomes_distintos()
    ensures
        forall|i: int, j: int|
            0 <= i < j < ordem().len() ==> nome(#[trigger] ordem()[i]) != nome(#[trigger] ordem()[j]),
{
    reveal_strlit("luz");
    reveal_strlit("tranca");
    reveal_strlit("alarme");
    reveal_strlit("janelas");
    reveal_strlit("robo");
    reveal_strlit("cafeteira");
    reveal_strlit("ar_condicionado");
    reveal_strlit("aquecedor");
    reveal_strlit("caixa_de_som");
    reveal_strlit("televisao");
    assert forall|i: int, j: int| 0 <= i < j < ordem().len() implies nome(#[trigger] ordem()[i]) != nome(
        #[trigger] ordem()[j],
    ) by {
        let (x, y) = (nome(ordem()[i]), nome(ordem()[j]));
        if x.len() == y.len() {
            assert(x[0] != y[0] || x[1] != y[1] || x[2] != y[2]);
        }
    }
}

/// The seven mode names are pairwise different.
pub proof fn lei_modos_distintos()
    ensures
        "dormir"@ != "acordar"@,
        "dormir"@ != "limpar"@,
        "dormir"@ != "trancar"@,
        "dormir"@ != "destrancar"@,
        "dormir"@ != "filme"@,
        "dormir"@ != "musica"@,
        "acordar"@ != "limpar"@,
        "acordar"@ != "trancar"@,
        "acordar"@ != "destrancar"@,
        "acordar"@ != "filme"@,
        "acordar"@ != "musica"@,
        "limpar"@ != "trancar"@,
        "limpar"@ != "destrancar"@,
        "limpar"@ != "filme"@,
        "limpar"@ != "musica"@,
        "trancar"@ != "destrancar"@,
        "trancar"@ != "filme"@,
        "trancar"@ != "musica"@,
        "destrancar"@ != "filme"@,
        "destrancar"@ != "musica"@,
        "filme"@ != "musica"@,
{
    reveal_strlit("dormir");
    reveal_strlit("acordar");
    reveal_strlit("limpar");
    reveal_strlit("trancar");
    reveal_strlit("destrancar");
    reveal_strlit("filme");
    reveal_strlit("musica");
    assert("dormir"@.len() == 6 && "dormir"@[0] == 'd');
    assert("acordar"@.len() == 7 && "acordar"@[0] == 'a');
    assert("limpar"@.len() == 6 && "limpar"@[0] == 'l');
    assert("trancar"@.len() == 7 && "trancar"@[0] == 't');
    assert("destrancar"@.len() == 10 && "destrancar"@[0] == 'd');
    assert("filme"@.len() == 5 && "filme"@[0] == 'f');
    assert("musica"@.len() == 6 && "musica"@[0] == 'm');
}

/// The "dormir" mode does what the routine does at night.
pub proof fn lei_modo_dormir_e_noite(a: AutomacaoResidencial, h: int)
    requires
        h >= 22 || h < 6,
    ensures
        a.no_modo("dormir"@) == a.na_hora(h),
{
}

/// The "acordar" mode does what the routine does at six.
pub proof fn lei_modo_acordar_e_manha(a: AutomacaoResidencial)
    ensures
        a.no_modo("acordar"@) == a.na_hora(6),
{
    lei_modos_distintos();
}

/// A mode name the house does not know changes nothing.
pub proof fn lei_modo_desconhecido(a: AutomacaoResidencial, modo: Seq<char>)
    requires
        modo != "dormir"@,
        modo != "acordar"@,
        modo != "limpar"@,
        modo != "trancar"@,
        modo != "destrancar"@,
        modo != "filme"@,
        modo != "musica"@,
    ensures
        a.no_modo(modo) == a,
{
}

/// Switching to a mode twice is the same as switching once.
pub proof fn lei_modo_idempotente(a: AutomacaoResidencial, modo: Seq<char>)
    ensures
        a.no_modo(modo).no_modo(modo) == a.no_modo(modo),
{
}

/// "destrancar" undoes "trancar" on the lock and the alarm, and both leave
/// every other device alone.
pub proof fn lei_trancar_destrancar(a: AutomacaoResidencial)
    ensures
        a.no_modo("trancar"@).tranca && a.no_modo("trancar"@).alarme,
        a.no_modo("trancar"@).no_modo("destrancar"@) == (AutomacaoResidencial {
            tranca: false,
            alarme: false,
            ..a
        }),
{
    lei_modos_distintos();
}

/// The thermostat never runs the air conditioner and the heater together.
pub proof fn lei_termostato_exclusivo(a: AutomacaoResidencial, abaixo_min: bool, acima_min: bool, abaixo_max: bool)
    ensures
        ({
            let t = a.com_termostato(abaixo_min, acima_min, abaixo_max);
            !(t.ar_condicionado && t.aquecedor)
        }),
{
}

// ---------------------------------------------------------------- locks

/// After a lock update, each lock holds the value asked of it, or its old
/// value when the update asked nothing.
pub proof fn lei_travas_por_dispositivo(l: LockDevice, u: UpdateLockData, d: Dispositivo)
    ensures
        l.atualizado(u).travado(d) == aplicar(u.pedido(d), l.travado(d)),
{
}

/// A device is locked against an update exactly when the update names it
/// and its lock is on.
pub proof fn lei_algum_travado(l: LockDevice, u: UpdateData)
    ensures
        l.algum_travado(u) <==> exists|d: Dispositivo| #[trigger] u.pedido(d) is Some && l.travado(d),
{
    if l.algum_travado(u) {
        if u.luz is Some && l.lock_luz {
            assert(u.pedido(Dispositivo::Luz) is Some);
        } else if u.tranca is Some && l.lock_tranca {
            assert(u.pedido(Dispositivo::Tranca) is Some);
        } else if u.alarme is Some && l.lock_alarme {
            assert(u.pedido(Dispositivo::Alarme) is Some);
        } else if u.janelas is Some && l.lock_janelas {
            assert(u.pedido(Dispositivo::Janelas) is Some);
        } else if u.robo is Some && l.lock_robo {
            assert(u.pedido(Dispositivo::Robo) is Some);
        } else if u.cafeteira is Some && l.lock_cafeteira {
            assert(u.pedido(Dispositivo::Cafeteira) is Some);
        } else if u.ar_condicionado is Some && l.lock_ar_condicionado {
            assert(u.pedido(Dispositivo::ArCondicionado) is Some);
        } else if u.aquecedor is Some && l.lock_aquecedor {
            assert(u.pedido(Dispositivo::Aquecedor) is Some);
        } else if u.caixa_de_som is Some && l.lock_caixa_de_som {
            assert(u.pedido(Dispositivo::CaixaDeSom) is Some);
        } else {
            assert(u.pedido(Dispositivo::Televisao) is Some);
        }
    }
}

/// The lock check fails exactly when the update names no device, and
/// otherwise answers whether a device that the update names is locked.
pub proof fn lei_consulta(l: LockDevice, u: UpdateData)
    ensures
        (l.consulta(u) is Err) <==> (forall|d: Dispositivo| #[trigger] u.pedido(d) is None),
        l.consulta(u) is Ok ==> l.consulta(u) == Ok::<bool, Seq<char>>(
            exists|d: Dispositivo| #[trigger] u.pedido(d) is Some && l.travado(d),
        ),
{
    lei_algum_travado(l, u);
    if l.consulta(u) is Err {
        assert forall|d: Dispositivo| #[trigger] u.pedido(d) is None by {}
    } else {
        let d = u.primeiro_pedido()->0;
        assert(u.pedido(d) is Some);
    }
}

// ---------------------------------------------------------------- access

/// A password registered under the master password then opens the house.
pub proof fn lei_registro_e_login(s: EstadoCasa, mestra: Seq<char>, nova: Seq<char>)
    requires
        mestra == s.senha_mestra,
    ensures
        s.registra(mestra, nova).senha_aceita(nova),
        s.registra(mestra, nova).entra(nova).autenticado,
        s.registra(mestra, nova).entra(nova).automacao == s.automacao.com_acesso(),
{
}

/// A registration under a wrong master password changes nothing.
pub proof fn lei_registro_recusado(s: EstadoCasa, mestra: Seq<char>, nova: Seq<char>)
    requires
        mestra != s.senha_mestra,
    ensures
        s.registra(mestra, nova) == s,
{
}

/// Registering never takes a password away.
pub proof fn lei_registro_preserva_senhas(s: EstadoCasa, mestra: Seq<char>, nova: Seq<char>, senha: Seq<char>)
    requires
        s.senha_aceita(senha),
    ensures
        s.registra(mestra, nova).senha_aceita(senha),
{
}

/// A refused password changes nothing; an accepted one lets the user in.
pub proof fn lei_login(s: EstadoCasa, senha: Seq<char>)
    ensures
        !s.senha_aceita(senha) ==> s.entra(senha) == s,
        s.senha_aceita(senha) ==> {
            let t = s.entra(senha);
            &&& t.autenticado
            &&& t.automacao.luz && !t.automacao.tranca && !t.automacao.alarme
            &&& t.travas == s.travas && t.usuarios == s.usuarios && t.relogio == s.relogio
        },
{
}

/// Logging out leaves the house in its empty-house state whatever it was,
/// and ends the session; a client that says it is not logged in changes nothing.
pub proof fn lei_logout(s: EstadoCasa, t: EstadoCasa)
    ensures
        s.sai(true).automacao == t.sai(true).automacao,
        s.sai(true).automacao == AutomacaoResidencial::casa_vazia(),
        !s.sai(true).autenticado,
        s.sai(false) == s,
{
}

/// An update that names a locked device, or names no device at all, leaves
/// the house as it is.
pub proof fn lei_atualizacao_bloqueada(s: EstadoCasa, u: UpdateData)
    requires
        (exists|d: Dispositivo| #[trigger] u.pedido(d) is Some && s.travas.travado(d))
            || (forall|d: Dispositivo| #[trigger] u.pedido(d) is None),
    ensures
        s.atualiza(u) == s,
{
    lei_consulta(s.travas, u);
}

/// A locked device's state is never changed by a device update, whatever
/// else the update asks for.
pub proof fn lei_dispositivo_travado_nao_muda(s: EstadoCasa, u: UpdateData, d: Dispositivo)
    requires
        s.travas.travado(d),
    ensures
        s.atualiza(u).automacao.estado(d) == s.automacao.estado(d),
{
    lei_consulta(s.travas, u);
    if !s.bloqueado(u) {
        assert(u.pedido(d) is None);
        lei_atualizacao_por_dispositivo(s.automacao, u, d);
    }
}

/// An update that names some device and whose named devices are all
/// unlocked is applied.
pub proof fn lei_atualizacao_liberada(s: EstadoCasa, u: UpdateData, d0: Dispositivo)
    requires
        u.pedido(d0) is Some,
        forall|d: Dispositivo| #[trigger] u.pedido(d) is Some ==> !s.travas.travado(d),
    ensures
        s.atualiza(u).automacao == s.automacao.atualizado(u),
        s.atualiza(u).travas == s.travas,
{
    lei_consulta(s.travas, u);
}

/// Changing locks or modes never touches the session, the passwords or the clock.
pub proof fn lei_operacoes_preservam_sessao(s: EstadoCasa, u: UpdateLockData, v: UpdateData, modo: Seq<char>)
    ensures
        s.trava(u).automacao == s.automacao,
        s.trava(u).autenticado == s.autenticado && s.trava(u).usuarios == s.usuarios,
        s.atualiza(v).autenticado == s.autenticado && s.atualiza(v).usuarios == s.usuarios,
        s.muda_modo(modo).autenticado == s.autenticado && s.muda_modo(modo).travas == s.travas,
{
}

// ---------------------------------------------------------------- routine

/// Each period advances the clock by one hour and keeps a valid hour valid;
/// nobody logged in, only the rain acts on the devices; someone logged in,
/// the air conditioner and the heater are never on together.
pub proof fn lei_passo(s: EstadoCasa, c: CondicaoClima)
    ensures
        s.passo(c).relogio.hour == proxima_hora(s.relogio.hour as int),
        s.relogio.wf() ==> s.passo(c).relogio.wf(),
        !s.autenticado ==> s.passo(c).automacao == s.automacao.com_chuva(c.chuva_forte),
        s.autenticado ==> !(s.passo(c).automacao.ar_condicionado && s.passo(c).automacao.aquecedor),
        s.passo(c).travas == s.travas && s.passo(c).usuarios == s.usuarios,
{
}

// ---------------------------------------------------------------- weather

/// Turning commas into points keeps the length, makes each comma a point
/// and leaves every other byte as it was.
pub proof fn lei_sem_virgulas(s: Seq<u8>)
    ensures
        troca_virgulas(s).len() == s.len(),
        forall|i: int| 0 <= i < s.len() ==> #[trigger] troca_virgulas(s)[i] != 44u8,
        forall|i: int| 0 <= i < s.len() && s[i] != 44u8 ==> #[trigger] troca_virgulas(s)[i] == s[i],
        forall|i: int| 0 <= i < s.len() && s[i] == 44u8 ==> #[trigger] troca_virgulas(s)[i] == 46u8,
{
}

// ---------------------------------------------------------------- effects, device by device

/// `b` differs from `a` at most on the devices in `mudam`.
pub open spec fn so_mudam(a: AutomacaoResidencial, b: AutomacaoResidencial, mudam: Set<Dispositivo>) -> bool {
    forall|d: Dispositivo| !mudam.contains(d) ==> #[trigger] b.estado(d) == a.estado(d)
}

/// The house starts with only the lock and the alarm on.
pub proof fn lei_estado_inicial(d: Dispositivo)
    ensures
        AutomacaoResidencial::inicial().estado(d) == (d == Dispositivo::Tranca || d == Dispositivo::Alarme),
        !LockDevice::inicial().travado(d),
{
}

/// The empty-house state has only the lock, the alarm and the shut windows on.
pub proof fn lei_casa_vazia(d: Dispositivo)
    ensures
        AutomacaoResidencial::casa_vazia().estado(d) == (d == Dispositivo::Tranca || d == Dispositivo::Alarme
            || d == Dispositivo::Janelas),
{
}

/// Letting someone in turns the light on, unlocks the door and switches the
/// alarm off, and touches nothing else.
pub proof fn lei_acesso(a: AutomacaoResidencial)
    ensures
        a.com_acesso().luz && !a.com_acesso().tranca && !a.com_acesso().alarme,
        so_mudam(a, a.com_acesso(), set![Dispositivo::Luz, Dispositivo::Tranca, Dispositivo::Alarme]),
{
}

/// At night (from 22 up to 6) the routine switches off the light, the sound,
/// the television and the robot and shuts the windows, and touches nothing else.
pub proof fn lei_rotina_noite(a: AutomacaoResidencial, h: int)
    requires
        h >= 22 || h < 6,
    ensures
        !a.na_hora(h).luz && a.na_hora(h).janelas && !a.na_hora(h).caixa_de_som,
        !a.na_hora(h).televisao && !a.na_hora(h).robo,
        so_mudam(
            a,
            a.na_hora(h),
            set![
                Dispositivo::Luz,
                Dispositivo::Janelas,
                Dispositivo::CaixaDeSom,
                Dispositivo::Televisao,
                Dispositivo::Robo,
            ],
        ),
{
}

/// At six the routine turns the light and the coffee maker on and opens the
/// windows, and touches nothing else.
pub proof fn lei_rotina_seis(a: AutomacaoResidencial)
    ensures
        a.na_hora(6).luz && !a.na_hora(6).janelas && a.na_hora(6).cafeteira,
        so_mudam(a, a.na_hora(6), set![Dispositivo::Luz, Dispositivo::Janelas, Dispositivo::Cafeteira]),
{
}

/// At seven the routine switches the coffee maker off and touches nothing else.
pub proof fn lei_rotina_sete(a: AutomacaoResidencial)
    ensures
        !a.na_hora(7).cafeteira,
        so_mudam(a, a.na_hora(7), set![Dispositivo::Cafeteira]),
{
}

/// From eight up to 22 the routine changes nothing.
pub proof fn lei_rotina_dia(a: AutomacaoResidencial, h: int)
    requires
        8 <= h < 22,
    ensures
        a.na_hora(h) == a,
{
}

/// "dormir" switches off the light, the sound, the television and the robot
/// and shuts the windows, and touches nothing else.
pub proof fn lei_modo_dormir(a: AutomacaoResidencial)
    ensures
        !a.no_modo("dormir"@).luz && a.no_modo("dormir"@).janelas && !a.no_modo("dormir"@).caixa_de_som,
        !a.no_modo("dormir"@).televisao && !a.no_modo("dormir"@).robo,
        so_mudam(
            a,
            a.no_modo("dormir"@),
            set![
                Dispositivo::Luz,
                Dispositivo::Janelas,
                Dispositivo::CaixaDeSom,
                Dispositivo::Televisao,
                Dispositivo::Robo,
            ],
        ),
{
}

/// "acordar" turns the light and the coffee maker on and opens the windows,
/// and touches nothing else.
pub proof fn lei_modo_acordar(a: AutomacaoResidencial)
    ensures
        a.no_modo("acordar"@).luz && !a.no_modo("acordar"@).janelas && a.no_modo("acordar"@).cafeteira,
        so_mudam(a, a.no_modo("acordar"@), set![Dispositivo::Luz, Dispositivo::Janelas, Dispositivo::Cafeteira]),
{
    lei_modos_distintos();
}

/// "limpar" turns the robot on and touches nothing else.
pub proof fn lei_modo_limpar(a: AutomacaoResidencial)
    ensures
        a.no_modo("limpar"@).robo,
        so_mudam(a, a.no_modo("limpar"@), set![Dispositivo::Robo]),
{
    lei_modos_distintos();
}

/// "trancar" locks the door and arms the alarm, and touches nothing else.
pub proof fn lei_modo_trancar(a: AutomacaoResidencial)
    ensures
        a.no_modo("trancar"@).tranca && a.no_modo("trancar"@).alarme,
        so_mudam(a, a.no_modo("trancar"@), set![Dispositivo::Tranca, Dispositivo::Alarme]),
{
    lei_modos_distintos();
}

/// "destrancar" unlocks the door and disarms the alarm, and touches nothing else.
pub proof fn lei_modo_destrancar(a: AutomacaoResidencial)
    ensures
        !a.no_modo("destrancar"@).tranca && !a.no_modo("destrancar"@).alarme,
        so_mudam(a, a.no_modo("destrancar"@), set![Dispositivo::Tranca, Dispositivo::Alarme]),
{
    lei_modos_distintos();
}

/// "filme" turns on the television and the light and shuts the windows, and
/// touches nothing else.
pub proof fn lei_modo_filme(a: AutomacaoResidencial)
    ensures
        a.no_modo("filme"@).televisao && a.no_modo("filme"@).janelas && a.no_modo("filme"@).luz,
        so_mudam(a, a.no_modo("filme"@), set![Dispositivo::Televisao, Dispositivo::Janelas, Dispositivo::Luz]),
{
    lei_modos_distintos();
}

/// "musica" turns on the sound and the light, and touches nothing else.
pub proof fn lei_modo_musica(a: AutomacaoResidencial)
    ensures
        a.no_modo("musica"@).caixa_de_som && a.no_modo("musica"@).luz,
        so_mudam(a, a.no_modo("musica"@), set![Dispositivo::CaixaDeSom, Dispositivo::Luz]),
{
    lei_modos_distintos();
}

/// The thermostat heats below the minimum, does nothing inside the band,
/// cools otherwise, and touches nothing but the air conditioner and the heater.
pub proof fn lei_termostato(a: AutomacaoResidencial, abaixo_min: bool, acima_min: bool, abaixo_max: bool)
    ensures
        ({
            let t = a.com_termostato(abaixo_min, acima_min, abaixo_max);
            &&& abaixo_min ==> t.aquecedor && !t.ar_condicionado
            &&& !abaixo_min && acima_min && abaixo_max ==> !t.aquecedor && !t.ar_condicionado
            &&& !abaixo_min && !(acima_min && abaixo_max) ==> !t.aquecedor && t.ar_condicionado
            &&& so_mudam(a, t, set![Dispositivo::ArCondicionado, Dispositivo::Aquecedor])
        }),
{
}

/// Heavy rain shuts the windows; without it nothing changes; nothing but the
/// windows is ever touched.
pub proof fn lei_chuva(a: AutomacaoResidencial, chuva_forte: bool)
    ensures
        chuva_forte ==> a.com_chuva(chuva_forte).janelas,
        !chuva_forte ==> a.com_chuva(chuva_forte) == a,
        so_mudam(a, a.com_chuva(chuva_forte), set![Dispositivo::Janelas]),
{
}

/// In every period heavy rain shuts the windows, logged in or not, unless the
/// routine of the new hour (six o'clock) opens them again; with nobody logged
/// in nothing but the windows changes; the clock shows the next hour.
pub proof fn lei_passo_chuva(s: EstadoCasa, c: CondicaoClima)
    ensures
        c.chuva_forte && proxima_hora(s.relogio.hour as int) != 6 ==> s.passo(c).automacao.janelas,
        !s.autenticado ==> so_mudam(s.automacao, s.passo(c).automacao, set![Dispositivo::Janelas]),
        s.relogio.wf() ==> s.passo(c).relogio.hour == (s.relogio.hour + 1) % 24,
{
}

/// With someone logged in, each period runs the thermostat on the weather:
/// heating below the minimum, nothing inside the band, cooling otherwise.
pub proof fn lei_passo_termostato(s: EstadoCasa, c: CondicaoClima)
    requires
        s.autenticado,
    ensures
        c.abaixo_do_minimo ==> s.passo(c).automacao.aquecedor && !s.passo(c).automacao.ar_condicionado,
        !c.abaixo_do_minimo && c.acima_do_minimo && c.abaixo_do_maximo ==> !s.passo(c).automacao.aquecedor
            && !s.passo(c).automacao.ar_condicionado,
        !c.abaixo_do_minimo && !(c.acima_do_minimo && c.abaixo_do_maximo) ==> !s.passo(c).automacao.aquecedor
            && s.passo(c).automacao.ar_condicionado,
{
}

/// The lock report lists every device once, in order, by its name and its lock.
pub proof fn lei_relatorio_travas(l: LockDevice)
    ensures
        l.relatorio() == ordem().map_values(|d: Dispositivo| (nome(d), l.travado(d))),
{
    assert(l.relatorio() =~= ordem().map_values(|d: Dispositivo| (nome(d), l.travado(d))));
}

/// A wanted row with at least four fields, every row up to it read without
/// error, gives its columns 2 and 3 with commas made points, whatever further
/// columns it has.
pub proof fn lei_linha_completa(regs: Seq<Option<Seq<Seq<u8>>>>, contador: int)
    requires
        1 <= contador <= regs.len(),
        forall|j: int| 0 <= j < contador ==> #[trigger] regs[j] is Some,
        regs[contador - 1]->0.len() >= 4,
    ensures
        leitura_esperada(regs, contador) == Ok::<Option<(Seq<u8>, Seq<u8>)>, ErroLeitura>(
            Some((troca_virgulas(regs[contador - 1]->0[2]), troca_virgulas(regs[contador - 1]->0[3]))),
        ),
{
}

/// A wanted row with fewer than four fields, every row up to it read
/// without error, is refused for a missing field.
pub proof fn lei_linha_curta(regs: Seq<Option<Seq<Seq<u8>>>>, contador: int)
    requires
        1 <= contador <= regs.len(),
        forall|j: int| 0 <= j < contador ==> #[trigger] regs[j] is Some,
        regs[contador - 1]->0.len() < 4,
    ensures
        leitura_esperada(regs, contador) == Err::<Option<(Seq<u8>, Seq<u8>)>, ErroLeitura>(
            ErroLeitura::CampoNaoEncontrado,
        ),
{
}

/// A row that failed before the wanted one (or anywhere, when the wanted
/// one is not there) makes the reading fail; with no failing row and no
/// wanted row there is nothing to read.
pub proof fn lei_linha_ausente(regs: Seq<Option<Seq<Seq<u8>>>>, contador: int)
    ensures
        (exists|j: int| 0 <= j < contador && j < regs.len() && #[trigger] regs[j] is None)
            ==> leitura_esperada(regs, contador) == Err::<Option<(Seq<u8>, Seq<u8>)>, ErroLeitura>(
            ErroLeitura::Registro,
        ),
        !(1 <= contador <= regs.len()) && (forall|j: int| 0 <= j < regs.len() ==> #[trigger] regs[j] is Some)
            ==> leitura_esperada(regs, contador) == Ok::<Option<(Seq<u8>, Seq<u8>)>, ErroLeitura>(None),
{
}

} // verus!
